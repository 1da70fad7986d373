//! Failure kinds of the record operations and of the consumer's gated action.
use vstd::prelude::*;

verus! {

/// Why a record operation was rejected. Every rejection leaves the record as it was.
#[derive(Clone, Copy, Debug, PartialEq, Eq, Structural)]
pub enum PrivateStateError {
    /// The supplied commitment differs from the stored one.
    CommitmentMismatch,
    /// The asserted nonce differs from the stored one.
    NonceMismatch,
    /// Under the strict policy, the proposed nonce is not the stored nonce plus one.
    NonceNotSequential,
    /// Under the skipping policy, the proposed nonce does not exceed the stored one.
    NonceNotMonotonic,
    /// A policy tag other than the two defined ones.
    InvalidPolicy,
    /// The caller is not the record's authority.
    Unauthorized,
}

/// Why a consumer's gated action did not run.
#[derive(Clone, Copy, Debug, PartialEq, Eq, Structural)]
pub enum ConsumerError {
    /// The record handed in is not the one the consumer is linked to.
    InvalidPrivateState,
    /// The record's assertion failed; the inner error says how.
    StateAssertion(PrivateStateError),
}

} // verus!
