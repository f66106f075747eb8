use vstd::prelude::*;

verus! {

/// The only two failure kinds the gateway reports. Every other verification
/// outcome (a mathematically invalid proof, a malformed solution) collapses
/// to a boolean `false`, never an error.
#[derive(Clone, Copy, Debug, PartialEq, Eq, Structural)]
pub enum VdfError {
    /// The `security` or `difficulty` parameter exceeded a fixed ceiling.
    /// Raised before any cryptographic computation, as a cheap guard that
    /// bounds the worst-case cost of verification.
    ResourceLimitExceeded,
    /// A challenge handed to the extractor was shorter than the required
    /// 32-byte authentication-key region, so no address can be derived.
    StructuralPrecondition,
}

} // verus!
