//! Scenario tests of the message-lane engine.

use bridger::delivery::{RelayStrategy, WalkStop};
use bridger::error::RelayError;
use bridger::lane::{InboundLaneState, OutboundLaneState};
use bridger::relay::{
    confirmation_wait_needed, delivery_gas_budget, verifiable_execution_block, ConfirmAction,
    DeliveryProofBundle, MessageRelay, ProofProvider, RelayAction,
};

/// Accepts every key except the listed ones.
struct RejectListed {
    rejected: Vec<Vec<u8>>,
    consulted: Vec<Vec<u8>>,
}

impl RelayStrategy for RejectListed {
    fn decide(&mut self, encoded_key: &Vec<u8>) -> Result<bool, RelayError> {
        self.consulted.push(encoded_key.clone());
        Ok(!self.rejected.contains(encoded_key))
    }
}

/// Serves one key per nonce of the requested window; records the calls.
struct WindowProvider {
    calls: Vec<(u64, u64, u64)>,
}

impl ProofProvider for WindowProvider {
    fn build_proof(
        &mut self,
        begin: u64,
        end: u64,
        at_block: u64,
    ) -> Result<DeliveryProofBundle, RelayError> {
        self.calls.push((begin, end, at_block));
        let keys: Vec<Vec<u8>> = (begin..=end).map(|n| vec![n as u8]).collect();
        Ok(DeliveryProofBundle { proof: vec![0xAA, 0xBB], keys })
    }
}

fn engine(rejected: Vec<Vec<u8>>) -> MessageRelay<RejectListed, WindowProvider> {
    MessageRelay {
        strategy: RejectListed { rejected, consulted: Vec::new() },
        proof_provider: WindowProvider { calls: Vec::new() },
        confirm_limit: 20,
        max_messages_per_relaying: 100,
    }
}

#[test]
fn delivery_submits_exactly_the_accepted_prefix() {
    // outbound = {received: 5, generated: 10}, inbound = {delivered: 5,
    // confirmed: 3}; the strategy accepts nonces 6..=8 and rejects 9: the
    // submission declares exactly the three messages 6, 7 and 8.
    let mut engine = engine(vec![vec![9]]);
    let latest = OutboundLaneState { latest_generated_nonce: 10, latest_received_nonce: 5 };
    let inbound = InboundLaneState {
        last_delivered_nonce: 5,
        last_confirmed_nonce: 3,
        relayer_range_front: 4,
        relayer_range_back: 5,
    };
    let action = engine
        .message_relay(&latest, &inbound, Some((latest, 77)))
        .expect("iteration must succeed");
    match action {
        RelayAction::Submit { begin, end, count, proof } => {
            assert_eq!(begin, 6);
            assert_eq!(end, 10);
            assert_eq!(count, 3);
            assert_eq!(proof, vec![0xAA, 0xBB]);
        }
        _ => panic!("expected a submission"),
    }
    // The walk consulted 6, 7, 8 and 9, in order, and nothing after the
    // rejection.
    assert_eq!(
        engine.strategy.consulted,
        vec![vec![6], vec![7], vec![8], vec![9]]
    );
    assert_eq!(engine.proof_provider.calls, vec![(6, 10, 77)]);
}

#[test]
fn delivery_is_noop_when_everything_is_delivered() {
    // inbound.last_delivered_nonce == outbound.latest_generated_nonce: the
    // iteration does nothing and asks for no proof.
    let mut engine = engine(Vec::new());
    let latest = OutboundLaneState { latest_generated_nonce: 10, latest_received_nonce: 5 };
    let inbound = InboundLaneState {
        last_delivered_nonce: 10,
        last_confirmed_nonce: 3,
        relayer_range_front: 4,
        relayer_range_back: 10,
    };
    let action = engine
        .message_relay(&latest, &inbound, Some((latest, 77)))
        .expect("iteration must succeed");
    assert!(matches!(action, RelayAction::NothingToDo));
    assert!(engine.proof_provider.calls.is_empty());
    assert!(engine.strategy.consulted.is_empty());
}

#[test]
fn delivery_waits_while_no_source_block_is_verifiable() {
    let mut engine = engine(Vec::new());
    let latest = OutboundLaneState { latest_generated_nonce: 10, latest_received_nonce: 5 };
    let inbound = InboundLaneState {
        last_delivered_nonce: 5,
        last_confirmed_nonce: 3,
        relayer_range_front: 4,
        relayer_range_back: 5,
    };
    let action = engine
        .message_relay(&latest, &inbound, None)
        .expect("iteration must succeed");
    assert!(matches!(action, RelayAction::WaitForVerifiableHeader));
}

#[test]
fn delivery_waits_for_header_relay_when_window_is_stale() {
    // The verifiable head has not seen the undelivered messages yet.
    let mut engine = engine(Vec::new());
    let latest = OutboundLaneState { latest_generated_nonce: 12, latest_received_nonce: 5 };
    let stale = OutboundLaneState { latest_generated_nonce: 8, latest_received_nonce: 5 };
    let inbound = InboundLaneState {
        last_delivered_nonce: 8,
        last_confirmed_nonce: 3,
        relayer_range_front: 4,
        relayer_range_back: 8,
    };
    let action = engine
        .message_relay(&latest, &inbound, Some((stale, 42)))
        .expect("iteration must succeed");
    assert!(matches!(action, RelayAction::WaitForHeaderRelay));
    assert!(engine.proof_provider.calls.is_empty());
}

#[test]
fn delivery_never_submits_a_window_with_no_new_message() {
    // Nonces 1 and 2 of the window are already delivered and the first
    // candidate is rejected: the count equals the delivered count and no
    // transaction is submitted.
    let mut engine = engine(vec![vec![3]]);
    let latest = OutboundLaneState { latest_generated_nonce: 4, latest_received_nonce: 0 };
    let inbound = InboundLaneState {
        last_delivered_nonce: 2,
        last_confirmed_nonce: 2,
        relayer_range_front: 3,
        relayer_range_back: 2,
    };
    let action = engine
        .message_relay(&latest, &inbound, Some((latest, 9)))
        .expect("iteration must succeed");
    assert!(matches!(action, RelayAction::NothingNew));
}

#[test]
fn delivery_respects_the_new_messages_cap() {
    let mut engine = engine(Vec::new());
    engine.max_messages_per_relaying = 2;
    let latest = OutboundLaneState { latest_generated_nonce: 10, latest_received_nonce: 5 };
    let inbound = InboundLaneState {
        last_delivered_nonce: 5,
        last_confirmed_nonce: 5,
        relayer_range_front: 6,
        relayer_range_back: 5,
    };
    let action = engine
        .message_relay(&latest, &inbound, Some((latest, 1)))
        .expect("iteration must succeed");
    match action {
        RelayAction::Submit { begin, count, .. } => {
            assert_eq!(begin, 6);
            assert_eq!(count, 2);
        }
        _ => panic!("expected a submission"),
    }
    // Only the two accepted candidates were consulted.
    assert_eq!(engine.strategy.consulted, vec![vec![6], vec![7]]);
}

#[test]
fn delivery_respects_the_confirmation_capacity() {
    // confirmed = 3 and limit = 4: no nonce beyond 7 may be taken.
    let mut engine = engine(Vec::new());
    engine.confirm_limit = 4;
    let latest = OutboundLaneState { latest_generated_nonce: 10, latest_received_nonce: 5 };
    let inbound = InboundLaneState {
        last_delivered_nonce: 5,
        last_confirmed_nonce: 3,
        relayer_range_front: 4,
        relayer_range_back: 5,
    };
    let action = engine
        .message_relay(&latest, &inbound, Some((latest, 1)))
        .expect("iteration must succeed");
    match action {
        RelayAction::Submit { begin, count, .. } => {
            assert_eq!(begin, 6);
            assert_eq!(count, 2); // nonces 6 and 7 only
        }
        _ => panic!("expected a submission"),
    }
}

#[test]
fn confirmation_decisions() {
    let engine = engine(Vec::new());
    let all_done = OutboundLaneState { latest_generated_nonce: 9, latest_received_nonce: 9 };
    let target = InboundLaneState {
        last_delivered_nonce: 9,
        last_confirmed_nonce: 9,
        relayer_range_front: 10,
        relayer_range_back: 9,
    };
    assert!(matches!(
        engine.message_confirm(&all_done, &target, 5),
        ConfirmAction::AllConfirmed
    ));

    let pending = OutboundLaneState { latest_generated_nonce: 9, latest_received_nonce: 7 };
    let waiting = InboundLaneState {
        last_delivered_nonce: 7,
        last_confirmed_nonce: 7,
        relayer_range_front: 8,
        relayer_range_back: 7,
    };
    assert!(matches!(
        engine.message_confirm(&pending, &waiting, 5),
        ConfirmAction::WaitForDelivery
    ));

    let ahead = InboundLaneState {
        last_delivered_nonce: 9,
        last_confirmed_nonce: 7,
        relayer_range_front: 8,
        relayer_range_back: 9,
    };
    match engine.message_confirm(&pending, &ahead, 5) {
        ConfirmAction::Confirm { begin, end, at_block } => {
            assert_eq!(begin, 8);
            assert_eq!(end, 9);
            assert_eq!(at_block, 5);
        }
        _ => panic!("expected a confirmation"),
    }
}

#[test]
fn strategy_errors_abort_the_iteration() {
    struct Failing;
    impl RelayStrategy for Failing {
        fn decide(&mut self, _encoded_key: &Vec<u8>) -> Result<bool, RelayError> {
            Err(RelayError::Custom("fee market unreachable".to_string()))
        }
    }
    let mut engine = MessageRelay {
        strategy: Failing,
        proof_provider: WindowProvider { calls: Vec::new() },
        confirm_limit: 20,
        max_messages_per_relaying: 100,
    };
    let latest = OutboundLaneState { latest_generated_nonce: 10, latest_received_nonce: 5 };
    let inbound = InboundLaneState {
        last_delivered_nonce: 5,
        last_confirmed_nonce: 3,
        relayer_range_front: 4,
        relayer_range_back: 5,
    };
    assert!(engine.message_relay(&latest, &inbound, Some((latest, 1))).is_err());
}

/// A proof provider that must never be reached.
struct RefusingProvider;

impl ProofProvider for RefusingProvider {
    fn build_proof(
        &mut self,
        _begin: u64,
        _end: u64,
        _at_block: u64,
    ) -> Result<DeliveryProofBundle, RelayError> {
        Err(RelayError::EmptyStorageProof)
    }
}

#[test]
fn locally_decided_paths_succeed_despite_a_broken_provider() {
    // The engine owes success on every path it decides alone: a provider
    // that always fails cannot fail the no-op, the waits, or the empty
    // window.
    let mut engine = MessageRelay {
        strategy: RejectListed { rejected: Vec::new(), consulted: Vec::new() },
        proof_provider: RefusingProvider,
        confirm_limit: 20,
        max_messages_per_relaying: 100,
    };
    let latest = OutboundLaneState { latest_generated_nonce: 10, latest_received_nonce: 5 };
    let inbound = InboundLaneState {
        last_delivered_nonce: 10,
        last_confirmed_nonce: 3,
        relayer_range_front: 4,
        relayer_range_back: 10,
    };
    // Everything delivered: a no-op, not an error.
    assert!(matches!(
        engine.message_relay(&latest, &inbound, Some((latest, 1))).unwrap(),
        RelayAction::NothingToDo
    ));
    let behind = InboundLaneState { last_delivered_nonce: 5, ..inbound };
    // No verifiable head yet: wait, not an error.
    assert!(matches!(
        engine.message_relay(&latest, &behind, None).unwrap(),
        RelayAction::WaitForVerifiableHeader
    ));
    // The verifiable head lags the undelivered messages: wait, not an
    // error.
    let stale = OutboundLaneState { latest_generated_nonce: 5, latest_received_nonce: 5 };
    assert!(matches!(
        engine.message_relay(&latest, &behind, Some((stale, 1))).unwrap(),
        RelayAction::WaitForHeaderRelay
    ));
    // An empty verifiable window: a no-op, not an error.
    let drained = OutboundLaneState { latest_generated_nonce: 7, latest_received_nonce: 7 };
    let mid = InboundLaneState { last_delivered_nonce: 6, ..inbound };
    assert!(matches!(
        engine.message_relay(&latest, &mid, Some((drained, 1))).unwrap(),
        RelayAction::NothingToDo
    ));
}

#[test]
fn the_verifiable_head_needs_matching_state_roots() {
    let stored = vec![0x5A; 32];
    let mut reported = stored.clone();
    assert_eq!(verifiable_execution_block(&stored, &reported, 77), Some(77));
    reported[31] ^= 1;
    assert_eq!(verifiable_execution_block(&stored, &reported, 77), None);
}

#[test]
fn zero_confirmation_depth_needs_no_wait() {
    assert!(!confirmation_wait_needed(0));
    assert!(confirmation_wait_needed(1));
    assert!(confirmation_wait_needed(3));
}

#[test]
fn gas_budget_scales_with_the_window() {
    assert_eq!(delivery_gas_budget(6, 10), Some(300000 * 6));
    assert_eq!(delivery_gas_budget(1, 1), Some(300000 * 2));
    // A window too large to budget is refused instead of wrapping.
    assert_eq!(delivery_gas_budget(0, 100_000_000_000_000), None);
}

#[test]
fn walk_stop_is_comparable() {
    assert_eq!(WalkStop::Rejected, WalkStop::Rejected);
    assert_ne!(WalkStop::Rejected, WalkStop::EndOfWindow);
}
