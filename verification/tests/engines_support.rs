//! Tests of the header-sync engine, the affirm service, the supervisor
//! policies and the smaller helpers.

use bridger::affirm::{do_affirm, AffirmDecision, AffirmHandler};
use bridger::error::{BizError, RelayError};
use bridger::etherscan::{get_gas_oracle, ApiResult, GasOracle};
use bridger::feemarket::{my_assigned_info, Relayer};
use bridger::header_sync::{
    period_of, HeaderSyncAction, Proof, SyncCommittee, SyncCommitteeUpdate,
};
use bridger::indexer::{LikethChain, NeedRelayBlock, RelayBlockOrigin, RelayBlockType};
use bridger::lane::{InboundLaneState, OutboundLaneState};
use bridger::message_client::{
    build_messages_data, collect_accepted_events, pick_single_event,
    prepare_for_messages_confirmation, MessageAccepted, StorageEntryProof, StorageProof,
};
use bridger::lane::{Message, Payload};
use bridger::supervisor::{retry_delay, ReconnectBackoff, Supervisor};

fn committee() -> SyncCommittee {
    SyncCommittee { pubkeys: vec![vec![0x01; 48], vec![0x02; 48]], aggregate_pubkey: vec![0x03; 48] }
}

#[test]
fn header_sync_rests_when_the_next_committee_is_known() {
    // The next period's commitment is already non-zero on chain: no
    // update is submitted.
    let engine = SyncCommitteeUpdate {};
    let mut root = vec![0u8; 32];
    root[31] = 1;
    let action = engine.sync_committee_update(8192 * 5 + 123, &root);
    assert!(matches!(action, HeaderSyncAction::UpToDate));
}

#[test]
fn header_sync_relays_a_missing_committee() {
    // A zero root means the light client lacks the next committee: an
    // update for the finalized period is prepared.
    let engine = SyncCommitteeUpdate {};
    let root = vec![0u8; 32];
    match engine.sync_committee_update(8192 * 5 + 123, &root) {
        HeaderSyncAction::Relay { period } => assert_eq!(period, 5),
        _ => panic!("expected an update"),
    }
}

#[test]
fn period_derivation_matches_the_slot_layout() {
    assert_eq!(period_of(0), 0);
    assert_eq!(period_of(8191), 0);
    assert_eq!(period_of(8192), 1);
    assert_eq!(period_of(3 * 8192 + 17), 3);
}

#[test]
fn committee_update_parameter_needs_an_answer_and_a_single_proof() {
    let engine = SyncCommitteeUpdate {};
    let branch = Proof::SingleProof {
        gindex: 55,
        leaf: vec![0x01; 32],
        witnesses: vec![vec![0x0A; 32], vec![0x0B; 32]],
    };
    let update = engine
        .get_sync_committee_update_parameter(vec![committee()], branch)
        .unwrap();
    assert_eq!(update.sync_committee, committee());
    assert_eq!(update.next_sync_committee_branch, vec![vec![0x0A; 32], vec![0x0B; 32]]);

    let branch = Proof::SingleProof { gindex: 55, leaf: vec![0x01; 32], witnesses: Vec::new() };
    let gap = engine.get_sync_committee_update_parameter(Vec::new(), branch);
    assert_eq!(gap.unwrap_err(), RelayError::UpdateUnavailable);

    let tree = Proof::TreeOffsetProof { offsets: vec![1, 2], leaves: vec![vec![0x01; 32]] };
    let unsupported = engine.get_sync_committee_update_parameter(vec![committee()], tree);
    assert_eq!(unsupported.unwrap_err(), RelayError::UnsupportedProof);
}

#[test]
fn affirm_handler_tracks_relayed_and_target_marks() {
    let mut handler = AffirmHandler::new(0, 0);
    handler.update_target(90);
    handler.update_target(80);
    assert_eq!(handler.target, 90);
    // The chain confirmed block 85: only 90 is left to affirm.
    assert_eq!(handler.affirm(85), Some(90));
    assert_eq!(handler.relayed, 85);
    // Once the chain confirms past the target there is nothing to do.
    assert_eq!(handler.affirm(95), None);
    assert_eq!(handler.relayed, 95);
}

#[test]
fn affirm_checks_pending_game_and_parcel() {
    let filled = vec![0xABu8; 32];
    let zero = vec![0u8; 32];
    assert_eq!(do_affirm(100, &vec![101], &Vec::new(), &filled), AffirmDecision::InPending);
    assert_eq!(do_affirm(100, &vec![99], &vec![100], &filled), AffirmDecision::InGame);
    assert_eq!(do_affirm(100, &vec![99], &vec![98], &zero), AffirmDecision::EmptyParcel);
    assert_eq!(do_affirm(100, &vec![99], &vec![98], &filled), AffirmDecision::Affirm);
}

#[test]
fn a_skipped_affirmation_names_its_reason() {
    assert_eq!(
        AffirmDecision::InPending.rejection(100),
        Some(BizError::AffirmingBlockInPending(100))
    );
    assert_eq!(
        AffirmDecision::InGame.rejection(100),
        Some(BizError::AffirmingBlockInGame(100))
    );
    assert_eq!(
        AffirmDecision::EmptyParcel.rejection(100),
        Some(BizError::ParcelFromShadowIsEmpty(100))
    );
    assert_eq!(AffirmDecision::Affirm.rejection(100), None);
}

#[test]
fn supervisor_escalates_after_the_threshold() {
    let mut supervisor = Supervisor::new(15, 100, 2, 3, 7);
    assert_eq!(supervisor.plus_and_check(1), None);
    assert_eq!(supervisor.plus_and_check(2), None);
    assert_eq!(supervisor.plus_and_check(3), Some(3));
    assert_eq!(supervisor.plus_and_check(4), Some(6));
    assert_eq!(supervisor.plus_and_check(5), Some(7)); // capped
    // A long quiet spell resets the window.
    assert_eq!(supervisor.plus_and_check(500), None);
    assert_eq!(supervisor.error_count, 1);
}

#[test]
fn reconnect_backoff_doubles_then_gives_up() {
    let mut backoff = ReconnectBackoff::new();
    let mut waits = Vec::new();
    while backoff.next_attempt() {
        waits.push(backoff.wait_secs);
    }
    assert_eq!(waits, vec![2, 4, 8, 16, 32]);
    assert_eq!(backoff.attempts, 6);
}

#[test]
fn flaky_reads_retry_three_times() {
    assert_eq!(retry_delay(1), Some(1));
    assert_eq!(retry_delay(2), Some(2));
    assert_eq!(retry_delay(3), None);
}

#[test]
fn gas_oracle_is_accepted_only_on_success() {
    let oracle = GasOracle {
        last_block: "100".to_string(),
        safe_gas_price: "10".to_string(),
        propose_gas_price: "12".to_string(),
        fast_gas_price: "15".to_string(),
        suggest_base_fee: "9".to_string(),
        gas_used_ratio: "0.5".to_string(),
    };
    let ok = ApiResult {
        status: "1".to_string(),
        message: "OK".to_string(),
        result: oracle.clone(),
    };
    assert_eq!(get_gas_oracle(ok).unwrap(), oracle);
    let refused = ApiResult {
        status: "0".to_string(),
        message: "NOTOK".to_string(),
        result: oracle,
    };
    assert_eq!(
        get_gas_oracle(refused).unwrap_err(),
        RelayError::GasOracle("NOTOK".to_string())
    );
}

#[test]
fn assigned_relayer_lookup_finds_the_first_match() {
    let relayers = vec![
        Relayer { id: vec![0x01; 32], collateral: 100, fee: 5 },
        Relayer { id: vec![0x02; 32], collateral: 200, fee: 7 },
        Relayer { id: vec![0x02; 32], collateral: 300, fee: 9 },
    ];
    let (slot, relayer) = my_assigned_info(&relayers, &vec![0x02; 32]).unwrap();
    assert_eq!(slot, 1);
    assert_eq!(relayer.fee, 7);
    assert!(my_assigned_info(&relayers, &vec![0x03; 32]).is_none());
}

#[test]
fn lane_states_reject_broken_invariants() {
    assert!(OutboundLaneState::new(5, 10).is_ok());
    assert!(OutboundLaneState::new(11, 10).is_err());
    assert!(InboundLaneState::new(10, 10, 11, 10).is_ok());
    assert!(InboundLaneState::new(9, 10, 10, 9).is_err());
}

fn stored_message(nonce: u64) -> Message {
    Message {
        nonce,
        encoded_key: vec![nonce as u8; 4],
        payload: Payload { source: Vec::new(), target: Vec::new(), encoded: Vec::new() },
    }
}

fn accepted(nonce: u64) -> MessageAccepted {
    MessageAccepted {
        nonce,
        source: vec![0x0A],
        target: vec![0x0B],
        encoded: vec![nonce as u8, 0xFF],
        block_number: 40 + nonce,
    }
}

#[test]
fn messages_data_pairs_records_with_events() {
    let stored: Vec<Message> = (6..=10).map(stored_message).collect();
    let events: Vec<MessageAccepted> = (7..=9).map(accepted).collect();
    let data = build_messages_data(5, &stored, 6, 7, 9, &events).unwrap();
    assert_eq!(data.latest_received_nonce, 5);
    assert_eq!(data.messages.len(), 3);
    assert_eq!(data.messages[0].nonce, 7);
    assert_eq!(data.messages[0].encoded_key, vec![7; 4]);
    assert_eq!(data.messages[0].payload.encoded, vec![7, 0xFF]);
    assert_eq!(data.messages[2].payload.encoded, vec![9, 0xFF]);
}

#[test]
fn messages_data_refuses_a_window_the_records_do_not_cover() {
    let stored: Vec<Message> = (6..=8).map(stored_message).collect();
    let events: Vec<MessageAccepted> = (7..=9).map(accepted).collect();
    let r = build_messages_data(5, &stored, 6, 7, 9, &events);
    assert!(matches!(r, Err(RelayError::WindowSizeMismatch { .. })));
    // One event short of the window.
    let stored: Vec<Message> = (6..=10).map(stored_message).collect();
    let events: Vec<MessageAccepted> = (7..=8).map(accepted).collect();
    let r = build_messages_data(5, &stored, 6, 7, 9, &events);
    assert!(matches!(r, Err(RelayError::WindowSizeMismatch { .. })));
}

#[test]
fn accepted_events_must_cover_every_nonce() {
    let logs = vec![Some(accepted(6)), Some(accepted(7))];
    let events = collect_accepted_events(logs, 6).unwrap();
    assert_eq!(events.len(), 2);
    let gappy = vec![Some(accepted(6)), None, Some(accepted(8))];
    assert_eq!(
        collect_accepted_events(gappy, 6).unwrap_err(),
        RelayError::MissingEvent { nonce: 7 }
    );
}

#[test]
fn confirmation_preparation_needs_the_lane_witness() {
    let inbound = InboundLaneState {
        last_delivered_nonce: 9,
        last_confirmed_nonce: 7,
        relayer_range_front: 8,
        relayer_range_back: 9,
    };
    let with_entry = StorageProof {
        account_proof: vec![vec![0x01]],
        storage_proof: vec![StorageEntryProof { proof: vec![vec![0x02, 0x03]] }],
    };
    let proof = prepare_for_messages_confirmation(inbound, &with_entry).unwrap();
    assert_eq!(proof.inbound_lane_data, inbound);
    // rlp([[0x01]]) ++ rlp([[0x02, 0x03]])
    assert_eq!(proof.messages_proof, vec![0xC1, 0x01, 0xC3, 0x82, 0x02, 0x03]);

    let missing = StorageProof { account_proof: vec![vec![0x01]], storage_proof: Vec::new() };
    assert_eq!(
        prepare_for_messages_confirmation(inbound, &missing).unwrap_err(),
        RelayError::EmptyStorageProof
    );
}

#[test]
fn a_nonce_event_is_taken_only_when_unique() {
    assert!(pick_single_event(Vec::new()).is_none());
    assert_eq!(pick_single_event(vec![accepted(6)]).unwrap().nonce, 6);
    assert!(pick_single_event(vec![accepted(6), accepted(6)]).is_none());
}

#[test]
fn indexer_blocks_know_their_kind() {
    let block = NeedRelayBlock {
        id: "7".to_string(),
        block_number: 7,
        block_hash: "0x00ff".to_string(),
        type_: RelayBlockType::Mandatory,
        origin: RelayBlockOrigin::BridgePangoro,
        lane_id: None,
        message_nonce: None,
        parent_hash: [0; 32],
        state_root: [0; 32],
        extrinsics_root: [0; 32],
        digest: Vec::new(),
    };
    assert!(block.is_mandatory());
    assert_eq!(block.block_hash_bytes().unwrap(), vec![0x00, 0xFF]);

    let mut on_demand = block.clone();
    on_demand.type_ = RelayBlockType::OnDemand;
    assert!(!on_demand.is_mandatory());

    let mut bad_hash = block.clone();
    bad_hash.block_hash = "0xzz".to_string();
    assert_eq!(bad_hash.block_hash_bytes().unwrap_err(), RelayError::InvalidHex);
    let mut odd = block;
    odd.block_hash = "0xfff".to_string();
    assert_eq!(odd.block_hash_bytes().unwrap_err(), RelayError::InvalidHex);
}

#[test]
fn chain_directories() {
    assert_eq!(LikethChain::Ethereum.directory(), "ethereum");
    assert_eq!(LikethChain::Ropsten.directory(), "ropsten");
    assert_eq!(LikethChain::Pangoro.directory(), "pangoro");
    assert_eq!(LikethChain::Darwinia.directory(), "darwinia");
}

#[test]
fn signing_key_validation_reaches_the_curve_library() {
    // The zero key is refused, a small non-zero scalar is accepted.
    let bad = bridger::crypto::evm_address(&vec![0x00; 32]);
    assert_eq!(bad.unwrap_err(), RelayError::InvalidSecretKey);
    let good = bridger::crypto::evm_address(&vec![0x01; 32]).unwrap();
    assert_eq!(good.len(), 20);
    // The address is a hash of the public key, not the key itself.
    assert_ne!(good, vec![0x01; 20]);
}
