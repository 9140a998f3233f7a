//! Round-trip and wire-format tests of the proof material.

use bridger::codec::{
    decode_confirmation_proof, decode_delivery_proof, encode_confirmation_proof,
    encode_delivery_proof, ConfirmationProof, DeliveryProof,
};
use bridger::error::RelayError;
use bridger::lane::InboundLaneState;
use bridger::lane::{Message, Payload};
use bridger::message_client::{
    build_message_storage_keys, build_messages_proof, prepare_for_messages_delivery,
    MessageAccepted, StorageEntryProof, StorageProof,
};

fn synthetic_storage_proof(tag: u8, entries: usize) -> StorageProof {
    StorageProof {
        account_proof: vec![vec![tag, 0x01], vec![tag, 0x02, 0x03]],
        storage_proof: (0..entries)
            .map(|i| StorageEntryProof { proof: vec![vec![tag, i as u8], vec![0x7F]] })
            .collect(),
    }
}

#[test]
fn delivery_proof_round_trips_for_its_window() {
    // A proof encoded for the window (6, 10) at block 77 decodes back to
    // exactly that window, with synthetic storage proofs inside.
    let lane_id = synthetic_storage_proof(0x11, 1);
    let lane_nonce = synthetic_storage_proof(0x22, 1);
    let messages = synthetic_storage_proof(0x33, 5);
    let messages_proof = build_messages_proof(&lane_id, &lane_nonce, &messages).unwrap();
    let proof = DeliveryProof {
        begin: 6,
        end: 10,
        at_block: 77,
        proof: messages_proof.account_proof.clone(),
    };
    let wire = encode_delivery_proof(&proof);
    let decoded = decode_delivery_proof(&wire).expect("an encoded proof must decode");
    assert_eq!(decoded, proof);
}

#[test]
fn confirmation_proof_round_trips_for_its_window() {
    let proof = ConfirmationProof {
        begin: 8,
        end: 9,
        at_block: 123,
        inbound: InboundLaneState {
            last_delivered_nonce: 9,
            last_confirmed_nonce: 7,
            relayer_range_front: 8,
            relayer_range_back: 9,
        },
        proof: vec![0xDE, 0xAD, 0xBE, 0xEF],
    };
    let wire = encode_confirmation_proof(&proof);
    let decoded = decode_confirmation_proof(&wire).expect("an encoded proof must decode");
    assert_eq!(decoded, proof);
}

#[test]
fn truncated_buffers_are_rejected() {
    assert!(decode_delivery_proof(&vec![0u8; 23]).is_none());
    assert!(decode_delivery_proof(&vec![0u8; 24]).is_some());
    assert!(decode_confirmation_proof(&vec![0u8; 55]).is_none());
    assert!(decode_confirmation_proof(&vec![0u8; 56]).is_some());
}

#[test]
fn delivery_proof_header_is_little_endian() {
    let proof = DeliveryProof { begin: 1, end: 2, at_block: 0x0102, proof: vec![0x99] };
    let wire = encode_delivery_proof(&proof);
    let mut expected = vec![0u8; 24];
    expected[0] = 1;
    expected[8] = 2;
    expected[16] = 0x02;
    expected[17] = 0x01;
    expected.push(0x99);
    assert_eq!(wire, expected);
}

#[test]
fn rlp_encoding_of_proof_nodes_is_exact() {
    // The account proof [[0x01], [0x02, 0x03]] as an RLP list: a single
    // byte below 0x80 stands for itself, the two-byte string gets an 0x82
    // prefix, and the four payload bytes get the 0xc4 list header.
    let lane_id = StorageProof {
        account_proof: vec![vec![0x01], vec![0x02, 0x03]],
        storage_proof: vec![StorageEntryProof { proof: Vec::new() }],
    };
    let lane_nonce = synthetic_storage_proof(0x22, 1);
    let messages = synthetic_storage_proof(0x33, 0);
    let proof = build_messages_proof(&lane_id, &lane_nonce, &messages).unwrap();
    assert_eq!(proof.account_proof, vec![0xC4, 0x01, 0x82, 0x02, 0x03]);
    // An empty node list is the bare list header.
    assert_eq!(proof.lane_id_proof, vec![0xC0]);
}

#[test]
fn messages_proof_carries_one_witness_per_message() {
    let lane_id = synthetic_storage_proof(0x11, 1);
    let lane_nonce = synthetic_storage_proof(0x22, 1);
    let messages = synthetic_storage_proof(0x33, 3);
    let proof = build_messages_proof(&lane_id, &lane_nonce, &messages).unwrap();
    assert_eq!(proof.lane_messages_proof.len(), 3);
    // rlp([[0x11, 0x01], [0x11, 0x02, 0x03]])
    assert_eq!(proof.account_proof, vec![0xC7, 0x82, 0x11, 0x01, 0x83, 0x11, 0x02, 0x03]);
    // The witnesses differ per message.
    assert_ne!(proof.lane_messages_proof[0], proof.lane_messages_proof[1]);
}

#[test]
fn a_proof_without_storage_entries_is_refused() {
    let empty = StorageProof { account_proof: vec![vec![0x01]], storage_proof: Vec::new() };
    let good = synthetic_storage_proof(0x22, 1);
    let r = build_messages_proof(&empty, &good, &good);
    assert_eq!(r.unwrap_err(), RelayError::EmptyStorageProof);
}

#[test]
fn delivery_preparation_combines_data_and_proof() {
    let stored: Vec<Message> = (6..=10)
        .map(|n| Message {
            nonce: n,
            encoded_key: vec![n as u8; 4],
            payload: Payload { source: Vec::new(), target: Vec::new(), encoded: Vec::new() },
        })
        .collect();
    let events: Vec<MessageAccepted> = (6..=10)
        .map(|n| MessageAccepted {
            nonce: n,
            source: vec![0x0A],
            target: vec![0x0B],
            encoded: vec![n as u8],
            block_number: 40 + n,
        })
        .collect();
    let lane_id = synthetic_storage_proof(0x11, 1);
    let lane_nonce = synthetic_storage_proof(0x22, 1);
    let messages = synthetic_storage_proof(0x33, 5);
    let proof = prepare_for_messages_delivery(
        5, &stored, 6, 6, 10, &events, &lane_id, &lane_nonce, &messages,
    )
    .unwrap();
    assert_eq!(proof.outbound_lane_data.latest_received_nonce, 5);
    assert_eq!(proof.outbound_lane_data.messages.len(), 5);
    assert_eq!(proof.messages_proof.lane_messages_proof.len(), 5);
    // A lane-slot proof without its storage entry fails the whole build.
    let empty = StorageProof { account_proof: vec![vec![0x01]], storage_proof: Vec::new() };
    assert!(prepare_for_messages_delivery(
        5, &stored, 6, 6, 10, &events, &empty, &lane_nonce, &messages,
    )
    .is_err());
}

#[test]
fn abi_encoding_frames_the_proof_tuple() {
    let lane_id = synthetic_storage_proof(0x11, 1);
    let lane_nonce = synthetic_storage_proof(0x22, 1);
    let messages = synthetic_storage_proof(0x33, 2);
    let proof = build_messages_proof(&lane_id, &lane_nonce, &messages).unwrap();
    let encoded = proof.abi_encode();
    // ABI words: the single dynamic tuple argument starts with its offset.
    assert_eq!(encoded.len() % 32, 0);
    assert_eq!(&encoded[..32], {
        let mut head = [0u8; 32];
        head[31] = 0x20;
        &head.clone()[..]
    });
    // Deterministic, and longer than the raw parts it frames.
    assert_eq!(encoded, proof.abi_encode());
    assert!(encoded.len() > proof.account_proof.len());
    // A different witness set encodes differently.
    let other = build_messages_proof(&lane_id, &lane_nonce, &synthetic_storage_proof(0x44, 2))
        .unwrap();
    assert_ne!(other.abi_encode(), encoded);
}

#[test]
fn message_storage_keys_are_distinct_hashes() {
    let keys = build_message_storage_keys(1, 2);
    assert_eq!(keys.len(), 2);
    assert_eq!(keys[0].len(), 32);
    assert_eq!(keys[1].len(), 32);
    assert_ne!(keys[0], keys[1]);
    // Hashing really happened: the key is not the 64-byte input word.
    assert_ne!(keys[0][..8], [0u8; 8]);
    // The same position always hashes to the same key.
    let again = build_message_storage_keys(1, 2);
    assert_eq!(keys, again);
}
