use vstd::prelude::*;

use crate::errors::VdfError;

verus! {

/// Number of leading challenge bytes that form the authentication-key
/// region: the structural prefix from which an address is derived.
pub const AUTHENTICATION_KEY_LENGTH: usize = 32;

/// Width of an account address. A system-wide constant: the address is
/// drawn from the last `ADDRESS_LENGTH` bytes of the authentication-key
/// region, and this relationship is kept explicit rather than assuming the
/// two widths coincide.
pub const ADDRESS_LENGTH: usize = 32;

/// Number of leading bytes of the authentication-key region returned as
/// the key fragment.
pub const KEY_FRAGMENT_LENGTH: usize = 16;

/// A fixed-width account identifier of exactly `ADDRESS_LENGTH` bytes.
#[derive(Debug, PartialEq, Eq)]
pub struct AccountAddress {
    bytes: Vec<u8>,
}

impl View for AccountAddress {
    type V = Seq<u8>;

    closed spec fn view(&self) -> Seq<u8> {
        self.bytes@
    }
}

impl AccountAddress {
    /// Every address holds exactly `ADDRESS_LENGTH` bytes.
    pub open spec fn wf(&self) -> bool {
        self@.len() == ADDRESS_LENGTH
    }

    pub fn new(bytes: Vec<u8>) -> (r: AccountAddress)
        requires
            bytes@.len() == ADDRESS_LENGTH,
        ensures
            r@ == bytes@,
            r.wf(),
    {
        AccountAddress { bytes }
    }

    pub fn bytes(&self) -> (r: &Vec<u8>)
        ensures
            r@ == self@,
    {
        &self.bytes
    }
}

/// The address bytes that a challenge yields: the last `ADDRESS_LENGTH`
/// bytes of its authentication-key region.
pub open spec fn extracted_address(c: Seq<u8>) -> Seq<u8> {
    c.subrange(
        AUTHENTICATION_KEY_LENGTH as int - ADDRESS_LENGTH as int,
        AUTHENTICATION_KEY_LENGTH as int,
    )
}

/// The key fragment that a challenge yields: the first
/// `KEY_FRAGMENT_LENGTH` bytes of its authentication-key region.
pub open spec fn extracted_fragment(c: Seq<u8>) -> Seq<u8> {
    c.subrange(0, KEY_FRAGMENT_LENGTH as int)
}

/// Derives an account address and a key fragment from a challenge.
///
/// The first `AUTHENTICATION_KEY_LENGTH` bytes of the challenge are read
/// as an authentication-key region; the address is built from the last
/// `ADDRESS_LENGTH` bytes of that region and the fragment from its first
/// `KEY_FRAGMENT_LENGTH` bytes. A challenge shorter than the region fails
/// with `StructuralPrecondition`. The result is a pure structural
/// projection of the challenge bytes: no further validation is performed.
pub fn extract_address_from_challenge(challenge: &Vec<u8>) -> (r: Result<
    (AccountAddress, Vec<u8>),
    VdfError,
>)
    ensures
        challenge@.len() < AUTHENTICATION_KEY_LENGTH ==> r == Err::<
            (AccountAddress, Vec<u8>),
            VdfError,
        >(VdfError::StructuralPrecondition),
        challenge@.len() >= AUTHENTICATION_KEY_LENGTH ==> (r matches Ok(p) && p.0.wf()
            && p.0@ == extracted_address(challenge@) && p.1@ == extracted_fragment(challenge@)),
{
    if challenge.len() < AUTHENTICATION_KEY_LENGTH {
        return Err(VdfError::StructuralPrecondition);
    }
    let start: usize = AUTHENTICATION_KEY_LENGTH - ADDRESS_LENGTH;
    let mut addr_bytes: Vec<u8> = Vec::new();
    let mut i: usize = start;
    while i < AUTHENTICATION_KEY_LENGTH
        invariant
            start == AUTHENTICATION_KEY_LENGTH - ADDRESS_LENGTH,
            start <= i <= AUTHENTICATION_KEY_LENGTH,
            challenge@.len() >= AUTHENTICATION_KEY_LENGTH,
            addr_bytes@ == challenge@.subrange(start as int, i as int),
        decreases AUTHENTICATION_KEY_LENGTH - i,
    {
        addr_bytes.push(challenge[i]);
        i += 1;
        proof {
            assert(addr_bytes@ =~= challenge@.subrange(start as int, i as int));
        }
    }
    let mut fragment: Vec<u8> = Vec::new();
    let mut j: usize = 0;
    while j < KEY_FRAGMENT_LENGTH
        invariant
            j <= KEY_FRAGMENT_LENGTH,
            challenge@.len() >= AUTHENTICATION_KEY_LENGTH,
            fragment@ == challenge@.subrange(0, j as int),
        decreases KEY_FRAGMENT_LENGTH - j,
    {
        fragment.push(challenge[j]);
        j += 1;
        proof {
            assert(fragment@ =~= challenge@.subrange(0, j as int));
        }
    }
    let address = AccountAddress::new(addr_bytes);
    Ok((address, fragment))
}

} // verus!
