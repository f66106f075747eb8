use vstd::prelude::*;

use crate::errors::VdfError;

verus! {

/// Global ceiling on the security parameter (modulus bit-strength class).
pub const MAX_SECURITY: u64 = 2048;

/// Global ceiling on the difficulty (sequential step count); it is also the
/// Wesolowski target.
pub const MAX_DIFFICULTY: u64 = 3_000_000_001;

/// Pietrzak's practical difficulty ceiling, lower than the global one.
pub const MAX_PIETRZAK_DIFFICULTY: u64 = 900_000_000;

/// Floor on the security parameter below which the backend is not invoked.
/// For tiny moduli (roughly below 22 bits) the backend's class-group
/// reduction can divide by zero on malformed solutions and kill the
/// process, and for a zero size its discriminant generation does not
/// return usefully; the floor clears that region with a wide margin, and
/// such degenerate sizes are reported as unverified instead.
pub const MIN_SECURITY: u64 = 64;

/// What `vdf::PietrzakVDF::verify` decides: whether `solution` is the valid
/// Pietrzak proof for `challenge` at `difficulty` under a `security`-bit
/// modulus. The backend documents its verification as deterministic, so the
/// decision is a function of these arguments alone.
pub uninterp spec fn pietrzak_verifies(
    security: u16,
    challenge: Seq<u8>,
    difficulty: u64,
    solution: Seq<u8>,
) -> bool;

/// What `vdf::WesolowskiVDF::verify` decides: whether `solution` is the
/// valid Wesolowski proof for `challenge` at `difficulty` under a
/// `security`-bit modulus. The backend documents its verification as
/// deterministic, so the decision is a function of these arguments alone.
pub uninterp spec fn wesolowski_verifies(
    security: u16,
    challenge: Seq<u8>,
    difficulty: u64,
    solution: Seq<u8>,
) -> bool;

/// Byte length of one serialized big-number half of a class-group element
/// under a `security`-bit modulus, as derived from the requested bit size.
pub open spec fn element_len(security: u16) -> int {
    (security as int + 16) / 16
}

/// The half width the backend actually decodes elements with: derived from
/// the bit length of the discriminant it expands `challenge` into, which
/// the documentation pins as deterministic in `security` and `challenge`.
/// The prime search can land one bit short of or past the requested size,
/// so this width can differ from `element_len` on rare challenges.
pub uninterp spec fn backend_element_len(security: u16, challenge: Seq<u8>) -> usize;

/// All bytes of `s` in `[start, start + len)` are zero.
pub open spec fn zero_run(s: Seq<u8>, start: int, len: int) -> bool {
    forall|i: int| start <= i < start + len ==> s[i] == 0
}

/// The `h`-th serialized coefficient half of `s` (halves are `len` bytes,
/// packed from the front; an even `h` leads its class-group element) lies
/// within `s` and is degenerate: either an all-zero leading half, which
/// decodes to a form with leading coefficient zero and makes the backend
/// panic on a division by zero, or the two's-complement most-negative
/// pattern `80 00 .. 00` in any position, whose magnitude does not fit the
/// half's width when the backend re-serializes it, which makes it panic as
/// well. No valid solution carries either pattern: valid reduced
/// coefficients are positive and far below the half's signed capacity.
pub open spec fn degenerate_half(s: Seq<u8>, len: int, h: int) -> bool {
    h * len + len <= s.len() && ((h % 2 == 0 && zero_run(s, h * len, len)) || (s[h * len] == 0x80
        && zero_run(s, h * len + 1, len - 1)))
}

/// Some aligned coefficient half of `s` is degenerate, so the backend
/// would panic on `s` instead of returning; the gateway refuses such
/// solutions before the call.
pub open spec fn has_degenerate_half(s: Seq<u8>, len: int) -> bool {
    exists|h: int| 0 <= h && #[trigger] degenerate_half(s, len, h)
}

/// The boolean the gateway returns once the parameter ceilings pass. A
/// modulus size below `MIN_SECURITY`, a Wesolowski challenge whose
/// discriminant width disagrees with the requested one (the backend would
/// then split the solution at a width the structural guard cannot see,
/// and it cannot verify even its own solver's output there), and the
/// solutions refused by the structural guard are all unverified;
/// everything else is the chosen scheme's decision, with `security`
/// narrowed to the 16 bits the schemes accept (the ceiling check has
/// already bounded it).
pub open spec fn scheme_decision(
    challenge: Seq<u8>,
    solution: Seq<u8>,
    difficulty: u64,
    security: u64,
    use_wesolowski: bool,
) -> bool {
    if security < MIN_SECURITY {
        false
    } else if use_wesolowski && backend_element_len(security as u16, challenge) as int
        != element_len(security as u16) {
        false
    } else if has_degenerate_half(solution, element_len(security as u16)) {
        false
    } else if use_wesolowski {
        wesolowski_verifies(security as u16, challenge, difficulty, solution)
    } else {
        pietrzak_verifies(security as u16, challenge, difficulty, solution)
    }
}

/// Relies on `vdf::create_discriminant` (vdf 0.1.0): it expands the
/// challenge into a prime discriminant of about `security` bits,
/// deterministically (its documentation pins the result to seed and
/// length) and without panicking for the sizes the floor admits. The body
/// reads back the discriminant's bit length with
/// `classgroup::ClassGroup::size_in_bits` — the same measurement the
/// backend's element decoding uses — and returns the half width derived
/// from it, named by `backend_element_len`.
#[verifier::external_body]
fn backend_element_length(security: u16, challenge: &Vec<u8>) -> (r: usize)
    requires
        MIN_SECURITY <= security as u64,
    ensures
        r == backend_element_len(security, challenge@),
{
    let d: classgroup::gmp::mpz::Mpz = vdf::create_discriminant(challenge.as_slice(), security);
    (<classgroup::gmp_classgroup::GmpClassGroup as classgroup::ClassGroup>::size_in_bits(&d) + 16)
        >> 4
}

/// Relies on `vdf::PietrzakVDF::verify` (vdf 0.1.0): it returns `Ok(())`
/// exactly for the one valid proof of `(challenge, difficulty)` and is
/// documented to be deterministic, so its decision is named by
/// `pietrzak_verifies`. The `requires` keeps out the inputs on which the
/// backend fails to return: solutions carrying a degenerate coefficient
/// half (a zero leading coefficient divides by zero while the form is
/// decoded; a most-negative half panics when the element is re-serialized
/// for the Fiat-Shamir hash), and modulus sizes below `MIN_SECURITY`
/// (tiny discriminants can drive the class-group reduction into a
/// process-killing division by zero, and a zero size does not return).
/// The width agreement the Wesolowski wrapper demands is not needed here:
/// this backend re-checks the half width against the discriminant's bit
/// length before decoding any element and errs on a mismatch.
#[verifier::external_body]
fn pietrzak_verify(security: u16, challenge: &Vec<u8>, difficulty: u64, solution: &Vec<u8>) -> (r:
    bool)
    requires
        MIN_SECURITY <= security as u64,
        !has_degenerate_half(solution@, element_len(security)),
    ensures
        r == pietrzak_verifies(security, challenge@, difficulty, solution@),
{
    let scheme = <vdf::PietrzakVDFParams as vdf::VDFParams>::new(vdf::PietrzakVDFParams(security));
    <vdf::PietrzakVDF as vdf::VDF>::verify(
        &scheme,
        challenge.as_slice(),
        difficulty,
        solution.as_slice(),
    ).is_ok()
}

/// Relies on `vdf::WesolowskiVDF::verify` (vdf 0.1.0): it returns `Ok(())`
/// exactly for the one valid proof of `(challenge, difficulty)` and is
/// documented to be deterministic, so its decision is named by
/// `wesolowski_verifies`. The `requires` keeps out the inputs on which the
/// backend fails to return — degenerate coefficient halves and sub-floor
/// modulus sizes — as for the Pietrzak wrapper (here the re-serialization
/// panic arises when the claimed output element is hashed). Unlike the
/// Pietrzak path, this backend never re-checks that the requested half
/// width matches the discriminant's, so the `requires` also demands that
/// agreement: without it the backend would split the solution at a
/// different width than the degenerate-half scan used, and the scan's
/// guarantee would not reach the bytes the backend decodes.
#[verifier::external_body]
fn wesolowski_verify(security: u16, challenge: &Vec<u8>, difficulty: u64, solution: &Vec<u8>) -> (r:
    bool)
    requires
        MIN_SECURITY <= security as u64,
        backend_element_len(security, challenge@) as int == element_len(security),
        !has_degenerate_half(solution@, element_len(security)),
    ensures
        r == wesolowski_verifies(security, challenge@, difficulty, solution@),
{
    let scheme = <vdf::WesolowskiVDFParams as vdf::VDFParams>::new(
        vdf::WesolowskiVDFParams(security),
    );
    <vdf::WesolowskiVDF as vdf::VDF>::verify(
        &scheme,
        challenge.as_slice(),
        difficulty,
        solution.as_slice(),
    ).is_ok()
}

/// Byte length of one serialized big-number half, as executable code.
fn element_length(security: u16) -> (r: usize)
    ensures
        r as int == element_len(security),
        1 <= r <= 0xffff,
{
    (security as usize + 16) / 16
}

/// Whether the bytes of `s` in `[start, start + len)` are all zero.
fn half_is_zero(s: &Vec<u8>, start: usize, len: usize) -> (r: bool)
    requires
        start + len <= s@.len(),
    ensures
        r == zero_run(s@, start as int, len as int),
{
    let n: usize = s.len();
    let mut i: usize = 0;
    while i < len
        invariant
            i <= len,
            n == s@.len(),
            start + len <= n,
            forall|j: int| start <= j < start + i ==> s@[j] == 0,
        decreases len - i,
    {
        if s[start + i] != 0 {
            assert(!zero_run(s@, start as int, len as int)) by {
                assert(s@[start as int + i as int] != 0);
            }
            return false;
        }
        i += 1;
    }
    true
}

/// Whether the half of `s` at `[start, start + len)` is degenerate: all
/// zero when it leads its element, or the most-negative pattern
/// `80 00 .. 00` in any position.
fn half_is_degenerate(s: &Vec<u8>, start: usize, len: usize, leading: bool) -> (r: bool)
    requires
        1 <= len,
        start + len <= s@.len(),
        start + len <= usize::MAX,
    ensures
        r == ((leading && zero_run(s@, start as int, len as int)) || (s@[start as int] == 0x80
            && zero_run(s@, start as int + 1, len as int - 1))),
{
    if leading && half_is_zero(s, start, len) {
        return true;
    }
    if s[start] == 0x80 && half_is_zero(s, start + 1, len - 1) {
        return true;
    }
    false
}

/// Whether some aligned coefficient half of `s` is degenerate; decides
/// `has_degenerate_half` exactly.
fn find_degenerate_half(s: &Vec<u8>, len: usize) -> (r: bool)
    requires
        1 <= len <= 0xffff,
    ensures
        r == has_degenerate_half(s@, len as int),
{
    let n: usize = s.len();
    if n < len {
        assert forall|j: int| 0 <= j implies !degenerate_half(s@, len as int, j) by {
            assert(j * (len as int) >= 0) by (nonlinear_arith)
                requires
                    j >= 0,
                    len as int >= 0;
        }
        return false;
    }
    let mut h: usize = 0;
    let mut start: usize = 0;
    proof {
        assert(0int * (len as int) == 0) by (nonlinear_arith);
    }
    loop
        invariant
            1 <= len <= 0xffff,
            n == s@.len(),
            n >= len,
            start as int == (h as int) * (len as int),
            start + len <= n,
            forall|j: int| 0 <= j < h as int ==> !degenerate_half(s@, len as int, j),
        decreases n - start,
    {
        let leading: bool = h % 2 == 0;
        if half_is_degenerate(s, start, len, leading) {
            assert(degenerate_half(s@, len as int, h as int));
            return true;
        }
        assert(!degenerate_half(s@, len as int, h as int));
        if n - start < 2 * len {
            assert forall|j: int| 0 <= j implies !degenerate_half(s@, len as int, j) by {
                if j > h as int {
                    assert(j * (len as int) + len as int > n as int) by (nonlinear_arith)
                        requires
                            j >= h as int + 1,
                            len as int >= 1,
                            start as int == (h as int) * (len as int),
                            (n as int - start as int) < 2 * (len as int);
                }
            }
            return false;
        }
        proof {
            assert(h as int + 1 <= start as int + 1) by (nonlinear_arith)
                requires
                    start as int == (h as int) * (len as int),
                    len as int >= 1,
                    h as int >= 0;
            assert(start as int + (len as int) == ((h as int) + 1) * (len as int))
                by (nonlinear_arith)
                requires
                    start as int == (h as int) * (len as int);
        }
        start = start + len;
        h = h + 1;
    }
}

/// Decides whether `solution` is a valid VDF proof for `challenge` at the
/// given `difficulty`, under the scheme selected by `use_wesolowski`
/// (`true` for Wesolowski, `false` for Pietrzak) parameterized by
/// `security`.
///
/// Parameter ceilings are enforced first, before any cryptographic work:
/// `security` above `MAX_SECURITY` or `difficulty` above `MAX_DIFFICULTY`
/// is refused with `ResourceLimitExceeded` whatever the scheme; for
/// Pietrzak, `difficulty` above `MAX_PIETRZAK_DIFFICULTY` is refused the
/// same way. The Wesolowski branch re-checks the global difficulty ceiling
/// on its own: the two ceilings coincide today, but each guard stands
/// separately in case they ever diverge. Ceiling values themselves are
/// allowed through.
///
/// Past the ceilings the result is `Ok(b)`, where `b` is the selected
/// scheme's own verification decision; every structural or mathematical
/// failure of the scheme collapses to `Ok(false)`, never an error. The
/// inputs the backend cannot decide without dying — modulus sizes below
/// `MIN_SECURITY`, solutions with a degenerate coefficient half (which no
/// valid solution carries), and Wesolowski challenges whose discriminant
/// width disagrees with the requested one (where the backend cannot
/// verify even its own solver's output) — are reported as `Ok(false)`
/// without invoking its verification.
pub fn verify(
    challenge: &Vec<u8>,
    solution: &Vec<u8>,
    difficulty: u64,
    security: u64,
    use_wesolowski: bool,
) -> (r: Result<bool, VdfError>)
    ensures
        security > MAX_SECURITY || difficulty > MAX_DIFFICULTY ==> r == Err::<bool, VdfError>(
            VdfError::ResourceLimitExceeded,
        ),
        security <= MAX_SECURITY && difficulty <= MAX_DIFFICULTY && !use_wesolowski && difficulty
            > MAX_PIETRZAK_DIFFICULTY ==> r == Err::<bool, VdfError>(
            VdfError::ResourceLimitExceeded,
        ),
        security <= MAX_SECURITY && difficulty <= MAX_DIFFICULTY && (use_wesolowski || difficulty
            <= MAX_PIETRZAK_DIFFICULTY) ==> r == Ok::<bool, VdfError>(
            scheme_decision(challenge@, solution@, difficulty, security, use_wesolowski),
        ),
{
    if security > MAX_SECURITY || difficulty > MAX_DIFFICULTY {
        return Err(VdfError::ResourceLimitExceeded);
    }
    if use_wesolowski {
        if difficulty > MAX_DIFFICULTY {
            return Err(VdfError::ResourceLimitExceeded);
        }
        if security < MIN_SECURITY {
            return Ok(false);
        }
        let sec: u16 = security as u16;
        let el: usize = element_length(sec);
        if backend_element_length(sec, challenge) != el {
            return Ok(false);
        }
        if find_degenerate_half(solution, el) {
            return Ok(false);
        }
        Ok(wesolowski_verify(sec, challenge, difficulty, solution))
    } else {
        if difficulty > MAX_PIETRZAK_DIFFICULTY {
            return Err(VdfError::ResourceLimitExceeded);
        }
        if security < MIN_SECURITY {
            return Ok(false);
        }
        let sec: u16 = security as u16;
        let el: usize = element_length(sec);
        if find_degenerate_half(solution, el) {
            return Ok(false);
        }
        Ok(pietrzak_verify(sec, challenge, difficulty, solution))
    }
}

} // verus!
