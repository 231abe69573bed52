use vstd::prelude::*;

verus! {

/// The error taxonomy of the crate.
///
/// - `InvalidIdentity`: a malformed account address.
/// - `Unauthorized`: the caller of a gated operation is not the owner.
/// - `EncodingFailure`: an encoder-internal invariant was broken; the typed
///   encoders of this crate cannot produce it, it exists for callers that
///   surface the codec behind fallible interfaces.
/// - `InvalidInput`: an input the policy evaluator rejects outright, such as
///   an empty destination address.
/// - `Denied`: the policy evaluator's business rejection, carrying a
///   human-readable reason.
#[derive(Debug, PartialEq, Eq)]
pub enum ContractError {
    InvalidIdentity,
    Unauthorized,
    EncodingFailure,
    InvalidInput,
    Denied(String),
}

} // verus!
