//! Laws of the record operations, stated over their outcome functions.
use vstd::prelude::*;

use crate::bytes::Pubkey;
use crate::error::PrivateStateError;
use crate::state::{
    assert_outcome, authorized, created, initialize_outcome, set_policy_outcome,
    transfer_outcome, update_outcome, PrivateState,
};

verus! {

/// One update call: the signer, the commitment it names as current, the new
/// commitment, and the proposed nonce.
pub type UpdateCall = (Pubkey, [u8; 32], [u8; 32], u64);

/// `states` is the run of records that the successful updates `calls` go
/// through, one call from each record to the next.
pub open spec fn successful_run(states: Seq<PrivateState>, calls: Seq<UpdateCall>) -> bool {
    &&& states.len() == calls.len() + 1
    &&& forall|i: int|
        #![trigger calls[i]]
        0 <= i < calls.len() ==> {
            &&& update_outcome(states[i], calls[i].0, calls[i].1@, calls[i].3) is Ok
            &&& states[i + 1] == states[i].with_commitment(calls[i].2, calls[i].3)
        }
}

proof fn lemma_run_prefix(states: Seq<PrivateState>, calls: Seq<UpdateCall>, k: int)
    requires
        successful_run(states, calls),
        0 <= k < states.len(),
    ensures
        states[k].policy == states[0].policy,
        states[0].policy == 0 ==> states[k].nonce == states[0].nonce + k,
        states[0].policy == 1 ==> forall|i: int| 0 <= i < k ==> states[i].nonce < states[k].nonce,
    decreases k,
{
    if k > 0 {
        lemma_run_prefix(states, calls, k - 1);
        let c = calls[k - 1];
        assert(update_outcome(states[k - 1], c.0, c.1@, c.3) is Ok);
    }
}

/// Along a run of successful updates the nonce strictly increases under the
/// skipping policy, and grows by exactly one per update under the strict policy.
pub proof fn lemma_update_run_monotonic(states: Seq<PrivateState>, calls: Seq<UpdateCall>)
    requires
        successful_run(states, calls),
    ensures
        states[0].policy == 1 ==> forall|i: int, j: int|
            0 <= i < j < states.len() ==> states[i].nonce < states[j].nonce,
        states[0].policy == 0 ==> forall|i: int|
            0 <= i < calls.len() ==> #[trigger] states[i + 1].nonce == states[i].nonce + 1,
{
    assert forall|i: int, j: int|
        0 <= i < j < states.len() && states[0].policy == 1 implies states[i].nonce
        < states[j].nonce by {
        lemma_run_prefix(states, calls, j);
    }
    assert forall|i: int|
        0 <= i < calls.len() && states[0].policy == 0 implies #[trigger] states[i + 1].nonce
        == states[i].nonce + 1 by {
        lemma_run_prefix(states, calls, i);
        lemma_run_prefix(states, calls, i + 1);
    }
}

/// A failed update changes nothing; a successful one moves the commitment and
/// the nonce together and keeps the authority and the policy.
pub proof fn lemma_update_atomic(
    s: PrivateState,
    caller: Pubkey,
    old_commitment: [u8; 32],
    new_commitment: [u8; 32],
    next_nonce: u64,
)
    ensures
        update_outcome(s, caller, old_commitment@, next_nonce) is Ok ==> {
            let t = s.with_commitment(new_commitment, next_nonce);
            &&& t.commitment == new_commitment
            &&& t.nonce == next_nonce
            &&& t.nonce > s.nonce
            &&& t.authority == s.authority
            &&& t.policy == s.policy
        },
{
}

/// A caller other than the authority can neither update, transfer nor change
/// the policy, whatever the other arguments are.
pub proof fn lemma_unauthorized_rejected(
    s: PrivateState,
    caller: Pubkey,
    old_commitment: Seq<u8>,
    next_nonce: u64,
    policy: u8,
)
    requires
        !authorized(s, caller),
    ensures
        update_outcome(s, caller, old_commitment, next_nonce) == Err::<(), _>(
            PrivateStateError::Unauthorized,
        ),
        transfer_outcome(s, caller) == Err::<(), _>(PrivateStateError::Unauthorized),
        set_policy_outcome(s, caller, policy) == Err::<(), _>(PrivateStateError::Unauthorized),
{
}

/// A fresh record asserts its first commitment at nonce 0; after one update to
/// a different commitment it asserts the new one at nonce 1, and the first one
/// no longer holds.
pub proof fn lemma_round_trip(authority: Pubkey, c0: [u8; 32], c1: [u8; 32])
    requires
        c0@ != c1@,
    ensures
        ({
            let s0 = created(authority, c0, 0);
            let s1 = s0.with_commitment(c1, 1);
            &&& initialize_outcome(0) is Ok
            &&& assert_outcome(s0, c0@, 0) is Ok
            &&& update_outcome(s0, authority, c0@, 1) is Ok
            &&& assert_outcome(s1, c1@, 1) is Ok
            &&& assert_outcome(s1, c0@, 0) == Err::<(), _>(PrivateStateError::CommitmentMismatch)
        }),
{
}

/// Under the strict policy, with the right signer and commitment, the only
/// admissible next nonce is the current one plus one; every other value fails
/// with `NonceNotSequential`.
pub proof fn lemma_strict_boundary(s: PrivateState, caller: Pubkey, next_nonce: u64)
    requires
        s.policy == 0,
        authorized(s, caller),
    ensures
        update_outcome(s, caller, s.commitment@, next_nonce) is Ok <==> next_nonce == s.nonce
            + 1,
        next_nonce != s.nonce + 1 ==> update_outcome(s, caller, s.commitment@, next_nonce)
            == Err::<(), _>(PrivateStateError::NonceNotSequential),
{
}

/// Once the authority switches a strict record to the skipping policy, an
/// update that skips four nonces is accepted.
pub proof fn lemma_policy_switch(s: PrivateState, caller: Pubkey)
    requires
        s.policy == 0,
        authorized(s, caller),
        s.nonce + 5 <= u64::MAX,
    ensures
        set_policy_outcome(s, caller, 1) is Ok,
        update_outcome(s.with_policy(1), caller, s.commitment@, (s.nonce + 5) as u64) is Ok,
{
}

/// A tag other than the two defined ones is refused with `InvalidPolicy`, both
/// at creation and by the authority's policy change.
pub proof fn lemma_invalid_tag(s: PrivateState, caller: Pubkey, tag: u8)
    requires
        tag > 1,
        authorized(s, caller),
    ensures
        initialize_outcome(tag) == Err::<(), _>(PrivateStateError::InvalidPolicy),
        set_policy_outcome(s, caller, tag) == Err::<(), _>(PrivateStateError::InvalidPolicy),
{
}

/// Every operation that succeeds leaves a well-formed record well-formed, and
/// none lowers the nonce.
pub proof fn lemma_wf_preserved(
    s: PrivateState,
    caller: Pubkey,
    old_commitment: [u8; 32],
    new_commitment: [u8; 32],
    next_nonce: u64,
    new_authority: Pubkey,
    policy: u8,
)
    requires
        s.wf(),
    ensures
        update_outcome(s, caller, old_commitment@, next_nonce) is Ok ==> s.with_commitment(
            new_commitment,
            next_nonce,
        ).wf() && next_nonce > s.nonce,
        s.with_authority(new_authority).wf(),
        set_policy_outcome(s, caller, policy) is Ok ==> s.with_policy(policy).wf(),
{
}

} // verus!
