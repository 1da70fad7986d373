//! The commitment record and the operations that create, change and assert it.
use vstd::prelude::*;

use crate::bytes::{bytes32_eq, Pubkey};
use crate::error::PrivateStateError;
use crate::policy::{
    check_nonce, nonce_admissible, nonce_error, policy_of_tag, valid_policy_tag, validate_policy,
    UpdatePolicy,
};

verus! {

/// One private state: who may change it, the commitment to its current
/// ciphertext, how many updates it has seen, and its policy tag.
#[derive(Clone, Copy, Debug)]
pub struct PrivateState {
    pub authority: Pubkey,
    pub commitment: [u8; 32],
    pub nonce: u64,
    pub policy: u8,
}

impl PrivateState {
    /// The record holds one of the two defined policy tags.
    pub open spec fn wf(self) -> bool {
        valid_policy_tag(self.policy)
    }

    /// The record with a new commitment and nonce, everything else kept.
    pub open spec fn with_commitment(self, commitment: [u8; 32], nonce: u64) -> PrivateState {
        PrivateState { commitment, nonce, ..self }
    }

    /// The record with a new authority, everything else kept.
    pub open spec fn with_authority(self, authority: Pubkey) -> PrivateState {
        PrivateState { authority, ..self }
    }

    /// The record with a new policy tag, everything else kept.
    pub open spec fn with_policy(self, policy: u8) -> PrivateState {
        PrivateState { policy, ..self }
    }
}

/// The record that creation yields.
pub open spec fn created(authority: Pubkey, commitment: [u8; 32], policy: u8) -> PrivateState {
    PrivateState { authority, commitment, nonce: 0, policy }
}

/// What creating a record with policy tag `policy` returns.
pub open spec fn initialize_outcome(policy: u8) -> Result<(), PrivateStateError> {
    if valid_policy_tag(policy) {
        Ok(())
    } else {
        Err(PrivateStateError::InvalidPolicy)
    }
}

/// Whether `caller` may change `s`.
pub open spec fn authorized(s: PrivateState, caller: Pubkey) -> bool {
    caller@ == s.authority@
}

/// What an update of `s` by `caller` returns: the caller is checked first, then
/// the commitment it names, then the stored policy, then the nonce step.
pub open spec fn update_outcome(
    s: PrivateState,
    caller: Pubkey,
    old_commitment: Seq<u8>,
    next_nonce: u64,
) -> Result<(), PrivateStateError> {
    if !authorized(s, caller) {
        Err(PrivateStateError::Unauthorized)
    } else if old_commitment != s.commitment@ {
        Err(PrivateStateError::CommitmentMismatch)
    } else if !valid_policy_tag(s.policy) {
        Err(PrivateStateError::InvalidPolicy)
    } else if !nonce_admissible(policy_of_tag(s.policy), s.nonce, next_nonce) {
        Err(nonce_error(policy_of_tag(s.policy)))
    } else {
        Ok(())
    }
}

/// What a transfer of `s` by `caller` returns.
pub open spec fn transfer_outcome(s: PrivateState, caller: Pubkey) -> Result<(), PrivateStateError> {
    if !authorized(s, caller) {
        Err(PrivateStateError::Unauthorized)
    } else {
        Ok(())
    }
}

/// What a policy change of `s` by `caller` to tag `policy` returns.
pub open spec fn set_policy_outcome(s: PrivateState, caller: Pubkey, policy: u8) -> Result<
    (),
    PrivateStateError,
> {
    if !authorized(s, caller) {
        Err(PrivateStateError::Unauthorized)
    } else if !valid_policy_tag(policy) {
        Err(PrivateStateError::InvalidPolicy)
    } else {
        Ok(())
    }
}

/// What asserting `s` against an expected commitment and nonce returns: the
/// commitment is checked first.
pub open spec fn assert_outcome(
    s: PrivateState,
    expected_commitment: Seq<u8>,
    expected_nonce: u64,
) -> Result<(), PrivateStateError> {
    if expected_commitment != s.commitment@ {
        Err(PrivateStateError::CommitmentMismatch)
    } else if expected_nonce != s.nonce {
        Err(PrivateStateError::NonceMismatch)
    } else {
        Ok(())
    }
}

/// Creation: the slot for the new record and its creator.
pub struct Initialize {
    pub private_state: PrivateState,
    pub authority: Pubkey,
}

/// An update: the record and the identity that signs the call.
pub struct Update {
    pub private_state: PrivateState,
    pub authority: Pubkey,
}

/// A change of owner: the record and the identity that signs the call.
pub struct TransferAuthority {
    pub private_state: PrivateState,
    pub authority: Pubkey,
}

/// A change of policy: the record and the identity that signs the call.
pub struct SetPolicy {
    pub private_state: PrivateState,
    pub authority: Pubkey,
}

/// An assertion: the record alone, read only; anyone may make it.
pub struct AssertState {
    pub private_state: PrivateState,
}

/// Creates the record in `ctx.private_state`, owned by `ctx.authority`, with
/// nonce 0. A tag other than the two defined ones fails with `InvalidPolicy`.
pub fn initialize(ctx: &mut Initialize, initial_commitment: [u8; 32], policy: u8) -> (r: Result<
    (),
    PrivateStateError,
>)
    ensures
        r == initialize_outcome(policy),
        r is Ok ==> final(ctx).private_state == created(
            old(ctx).authority,
            initial_commitment,
            policy,
        ),
        r is Ok ==> final(ctx).private_state.wf(),
        r is Err ==> final(ctx).private_state == old(ctx).private_state,
        final(ctx).authority == old(ctx).authority,
{
    validate_policy(policy)?;
    ctx.private_state = PrivateState {
        authority: ctx.authority,
        commitment: initial_commitment,
        nonce: 0,
        policy,
    };
    Ok(())
}

/// Replaces the commitment and the nonce together, provided the caller is the
/// authority, names the stored commitment, and the nonce step obeys the policy.
/// On any failure the record is left exactly as it was.
pub fn update(
    ctx: &mut Update,
    old_commitment: [u8; 32],
    new_commitment: [u8; 32],
    next_nonce: u64,
) -> (r: Result<(), PrivateStateError>)
    ensures
        r == update_outcome(old(ctx).private_state, old(ctx).authority, old_commitment@, next_nonce),
        r is Ok ==> final(ctx).private_state == old(ctx).private_state.with_commitment(
            new_commitment,
            next_nonce,
        ),
        r is Err ==> final(ctx).private_state == old(ctx).private_state,
        final(ctx).authority == old(ctx).authority,
{
    if !ctx.private_state.authority.key_eq(&ctx.authority) {
        return Err(PrivateStateError::Unauthorized);
    }
    if !bytes32_eq(&ctx.private_state.commitment, &old_commitment) {
        return Err(PrivateStateError::CommitmentMismatch);
    }
    let policy = UpdatePolicy::try_from(ctx.private_state.policy)?;
    check_nonce(policy, ctx.private_state.nonce, next_nonce)?;
    ctx.private_state.commitment = new_commitment;
    ctx.private_state.nonce = next_nonce;
    Ok(())
}

/// Hands the record to `new_authority`; only the current authority may.
pub fn transfer_authority(ctx: &mut TransferAuthority, new_authority: Pubkey) -> (r: Result<
    (),
    PrivateStateError,
>)
    ensures
        r == transfer_outcome(old(ctx).private_state, old(ctx).authority),
        r is Ok ==> final(ctx).private_state == old(ctx).private_state.with_authority(
            new_authority,
        ),
        r is Err ==> final(ctx).private_state == old(ctx).private_state,
        final(ctx).authority == old(ctx).authority,
{
    if !ctx.private_state.authority.key_eq(&ctx.authority) {
        return Err(PrivateStateError::Unauthorized);
    }
    ctx.private_state.authority = new_authority;
    Ok(())
}

/// Changes the record's policy; only the current authority may, and only to a
/// defined tag.
pub fn set_policy(ctx: &mut SetPolicy, policy: u8) -> (r: Result<(), PrivateStateError>)
    ensures
        r == set_policy_outcome(old(ctx).private_state, old(ctx).authority, policy),
        r is Ok ==> final(ctx).private_state == old(ctx).private_state.with_policy(policy),
        r is Ok ==> final(ctx).private_state.wf(),
        r is Err ==> final(ctx).private_state == old(ctx).private_state,
        final(ctx).authority == old(ctx).authority,
{
    if !ctx.private_state.authority.key_eq(&ctx.authority) {
        return Err(PrivateStateError::Unauthorized);
    }
    validate_policy(policy)?;
    ctx.private_state.policy = policy;
    Ok(())
}

/// Checks that the record holds exactly the expected commitment and nonce.
/// It reads the record only, and reports which of the two differs.
pub fn assert_state(ctx: &AssertState, expected_commitment: [u8; 32], expected_nonce: u64) -> (r:
    Result<(), PrivateStateError>)
    ensures
        r == assert_outcome(ctx.private_state, expected_commitment@, expected_nonce),
{
    if !bytes32_eq(&ctx.private_state.commitment, &expected_commitment) {
        return Err(PrivateStateError::CommitmentMismatch);
    }
    if ctx.private_state.nonce != expected_nonce {
        return Err(PrivateStateError::NonceMismatch);
    }
    Ok(())
}

} // verus!
