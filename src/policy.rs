//! The two nonce-ordering policies and the decision whether a nonce step is admissible.
use vstd::prelude::*;

use crate::error::PrivateStateError;

verus! {

/// How the nonce of a record must advance on each update.
#[derive(Clone, Copy, Debug, PartialEq, Eq, Structural)]
pub enum UpdatePolicy {
    /// The next nonce is exactly the current one plus one (stored tag 0).
    StrictSequential,
    /// The next nonce is any value above the current one (stored tag 1).
    AllowSkips,
}

/// The stored tags that name a policy.
pub open spec fn valid_policy_tag(tag: u8) -> bool {
    tag == 0 || tag == 1
}

/// The policy that a valid tag names.
pub open spec fn policy_of_tag(tag: u8) -> UpdatePolicy {
    if tag == 0 {
        UpdatePolicy::StrictSequential
    } else {
        UpdatePolicy::AllowSkips
    }
}

/// Whether a record under `policy` whose nonce is `current` may move to `next`.
pub open spec fn nonce_admissible(policy: UpdatePolicy, current: u64, next: u64) -> bool {
    match policy {
        UpdatePolicy::StrictSequential => next == current + 1,
        UpdatePolicy::AllowSkips => next > current,
    }
}

/// The error that a rejected nonce step under `policy` reports.
pub open spec fn nonce_error(policy: UpdatePolicy) -> PrivateStateError {
    match policy {
        UpdatePolicy::StrictSequential => PrivateStateError::NonceNotSequential,
        UpdatePolicy::AllowSkips => PrivateStateError::NonceNotMonotonic,
    }
}

impl UpdatePolicy {
    /// The stored tag of this policy.
    pub open spec fn tag(self) -> u8 {
        match self {
            UpdatePolicy::StrictSequential => 0,
            UpdatePolicy::AllowSkips => 1,
        }
    }

    /// Reads a stored tag: the single place that decides which tags are valid.
    pub fn try_from(value: u8) -> (r: Result<UpdatePolicy, PrivateStateError>)
        ensures
            valid_policy_tag(value) <==> r is Ok,
            r is Ok ==> r->Ok_0 == policy_of_tag(value) && r->Ok_0.tag() == value,
            r is Err ==> r->Err_0 == PrivateStateError::InvalidPolicy,
    {
        match value {
            0 => Ok(UpdatePolicy::StrictSequential),
            1 => Ok(UpdatePolicy::AllowSkips),
            _ => Err(PrivateStateError::InvalidPolicy),
        }
    }

    /// The stored tag of this policy.
    pub fn to_tag(&self) -> (r: u8)
        ensures
            r == self.tag(),
            valid_policy_tag(r),
    {
        match self {
            UpdatePolicy::StrictSequential => 0,
            UpdatePolicy::AllowSkips => 1,
        }
    }
}

/// Accepts a valid policy tag and rejects any other with `InvalidPolicy`.
pub fn validate_policy(policy: u8) -> (r: Result<(), PrivateStateError>)
    ensures
        r is Ok <==> valid_policy_tag(policy),
        r is Err ==> r->Err_0 == PrivateStateError::InvalidPolicy,
{
    match UpdatePolicy::try_from(policy) {
        Ok(_) => Ok(()),
        Err(e) => Err(e),
    }
}

/// Decides whether the nonce may move from `current` to `next` under `policy`.
/// Under the strict policy a record whose nonce is `u64::MAX` admits no further step.
pub fn check_nonce(policy: UpdatePolicy, current: u64, next: u64) -> (r: Result<(), PrivateStateError>)
    ensures
        r is Ok <==> nonce_admissible(policy, current, next),
        r is Err ==> r->Err_0 == nonce_error(policy),
{
    match policy {
        UpdatePolicy::StrictSequential => {
            if current < u64::MAX && next == current + 1 {
                Ok(())
            } else {
                Err(PrivateStateError::NonceNotSequential)
            }
        },
        UpdatePolicy::AllowSkips => {
            if next > current {
                Ok(())
            } else {
                Err(PrivateStateError::NonceNotMonotonic)
            }
        },
    }
}

} // verus!
