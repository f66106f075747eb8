//! A verification gateway for verifiable delay function (VDF) proofs.
//!
//! The gateway decides whether a claimed solution is a valid proof that a
//! minimum amount of sequential computation was performed against a
//! challenge, enforcing hard parameter ceilings before any cryptographic
//! work. A companion operation derives an account address and a short key
//! fragment from the leading bytes of a challenge.

pub mod errors;
pub mod extractor;
pub mod gateway;

pub use errors::VdfError;
pub use extractor::extract_address_from_challenge;
pub use extractor::AccountAddress;
pub use gateway::verify;
