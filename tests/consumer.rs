use private_state_toolkit::bytes::Pubkey;
use private_state_toolkit::consumer::{
    gated_action, initialize_consumer, ConsumerAccount, GatedAction, InitializeConsumer,
};
use private_state_toolkit::error::{ConsumerError, PrivateStateError};
use private_state_toolkit::state::PrivateState;

fn record(commitment: [u8; 32], nonce: u64) -> PrivateState {
    PrivateState { authority: Pubkey::new([1u8; 32]), commitment, nonce, policy: 0 }
}

fn linked(count: u64) -> ConsumerAccount {
    ConsumerAccount { count, private_state: Pubkey::new([42u8; 32]) }
}

#[test]
fn initialize_consumer_links_record() {
    let mut ctx = InitializeConsumer {
        consumer: ConsumerAccount { count: 17, private_state: Pubkey::new([0u8; 32]) },
        authority: Pubkey::new([3u8; 32]),
    };
    assert_eq!(initialize_consumer(&mut ctx, Pubkey::new([42u8; 32])), Ok(()));
    assert_eq!(ctx.consumer.count, 0);
    assert_eq!(ctx.consumer.private_state.bytes, [42u8; 32]);
}

#[test]
fn gated_action_counts_on_valid_state() {
    let mut ctx = GatedAction {
        consumer: linked(0),
        private_state_key: Pubkey::new([42u8; 32]),
        private_state: record([9u8; 32], 4),
        authority: Pubkey::new([3u8; 32]),
    };
    assert_eq!(gated_action(&mut ctx, [9u8; 32], 4), Ok(()));
    assert_eq!(gated_action(&mut ctx, [9u8; 32], 4), Ok(()));
    assert_eq!(ctx.consumer.count, 2);
}

#[test]
fn gated_action_passes_assertion_errors_through() {
    let mut ctx = GatedAction {
        consumer: linked(5),
        private_state_key: Pubkey::new([42u8; 32]),
        private_state: record([9u8; 32], 4),
        authority: Pubkey::new([3u8; 32]),
    };
    assert_eq!(
        gated_action(&mut ctx, [8u8; 32], 4),
        Err(ConsumerError::StateAssertion(PrivateStateError::CommitmentMismatch))
    );
    assert_eq!(
        gated_action(&mut ctx, [9u8; 32], 3),
        Err(ConsumerError::StateAssertion(PrivateStateError::NonceMismatch))
    );
    assert_eq!(ctx.consumer.count, 5);
}

#[test]
fn gated_action_rejects_other_record() {
    let mut ctx = GatedAction {
        consumer: linked(5),
        private_state_key: Pubkey::new([43u8; 32]),
        private_state: record([9u8; 32], 4),
        authority: Pubkey::new([3u8; 32]),
    };
    assert_eq!(gated_action(&mut ctx, [9u8; 32], 4), Err(ConsumerError::InvalidPrivateState));
    assert_eq!(ctx.consumer.count, 5);
}

#[test]
fn gated_action_count_saturates() {
    let mut ctx = GatedAction {
        consumer: linked(u64::MAX),
        private_state_key: Pubkey::new([42u8; 32]),
        private_state: record([9u8; 32], 4),
        authority: Pubkey::new([3u8; 32]),
    };
    assert_eq!(gated_action(&mut ctx, [9u8; 32], 4), Ok(()));
    assert_eq!(ctx.consumer.count, u64::MAX);
}
