//! A foreign component that gates an action of its own on a record assertion.
use vstd::prelude::*;

use crate::bytes::Pubkey;
use crate::error::ConsumerError;
use crate::state::{assert_outcome, assert_state, AssertState, PrivateState};

verus! {

/// The consumer's own record: how many gated actions ran, and the address of
/// the one commitment record they are checked against.
#[derive(Clone, Copy, Debug)]
pub struct ConsumerAccount {
    pub count: u64,
    pub private_state: Pubkey,
}

/// Creation of a consumer: its slot and its creator.
pub struct InitializeConsumer {
    pub consumer: ConsumerAccount,
    pub authority: Pubkey,
}

/// A gated action: the consumer, the address and contents of the record handed
/// in, and the identity that signs the call.
pub struct GatedAction {
    pub consumer: ConsumerAccount,
    pub private_state_key: Pubkey,
    pub private_state: PrivateState,
    pub authority: Pubkey,
}

/// `n + 1`, held at `u64::MAX`.
pub open spec fn count_after(n: u64) -> u64 {
    if n == u64::MAX {
        n
    } else {
        (n + 1) as u64
    }
}

/// What a gated action returns: the record's address is checked first, then
/// the record's assertion, whose error is passed on unchanged.
pub open spec fn gated_outcome(
    consumer: ConsumerAccount,
    key: Pubkey,
    s: PrivateState,
    expected_commitment: Seq<u8>,
    expected_nonce: u64,
) -> Result<(), ConsumerError> {
    if consumer.private_state@ != key@ {
        Err(ConsumerError::InvalidPrivateState)
    } else {
        match assert_outcome(s, expected_commitment, expected_nonce) {
            Ok(()) => Ok(()),
            Err(e) => Err(ConsumerError::StateAssertion(e)),
        }
    }
}

/// Links a fresh consumer to the record at `private_state`, with a count of 0.
pub fn initialize_consumer(ctx: &mut InitializeConsumer, private_state: Pubkey) -> (r: Result<
    (),
    ConsumerError,
>)
    ensures
        r is Ok,
        final(ctx).consumer.count == 0,
        final(ctx).consumer.private_state == private_state,
        final(ctx).authority == old(ctx).authority,
{
    ctx.consumer.count = 0;
    ctx.consumer.private_state = private_state;
    Ok(())
}

/// Runs the gated action, counting it, only when the record handed in is the
/// linked one and it holds the expected commitment and nonce.
pub fn gated_action(ctx: &mut GatedAction, expected_commitment: [u8; 32], expected_nonce: u64) -> (r:
    Result<(), ConsumerError>)
    ensures
        r == gated_outcome(
            old(ctx).consumer,
            old(ctx).private_state_key,
            old(ctx).private_state,
            expected_commitment@,
            expected_nonce,
        ),
        r is Ok ==> final(ctx).consumer.count == count_after(old(ctx).consumer.count),
        r is Err ==> final(ctx).consumer.count == old(ctx).consumer.count,
        final(ctx).consumer.private_state == old(ctx).consumer.private_state,
        final(ctx).private_state_key == old(ctx).private_state_key,
        final(ctx).private_state == old(ctx).private_state,
        final(ctx).authority == old(ctx).authority,
{
    if !ctx.consumer.private_state.key_eq(&ctx.private_state_key) {
        return Err(ConsumerError::InvalidPrivateState);
    }
    let assertion = AssertState { private_state: ctx.private_state };
    match assert_state(&assertion, expected_commitment, expected_nonce) {
        Ok(()) => {},
        Err(e) => {
            return Err(ConsumerError::StateAssertion(e));
        },
    }
    ctx.consumer.count = ctx.consumer.count.saturating_add(1);
    Ok(())
}

} // verus!
