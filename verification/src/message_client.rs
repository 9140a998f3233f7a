//! Building delivery and confirmation material for an EVM-style lane.
//!
//! The outbound lane contract keeps its data in three storage slots; a
//! delivery proof is the account proof plus one storage proof per slot and
//! per message, each RLP-list-encoded for the target verifier.  The
//! storage key of a message is the Keccak-256 hash of its position and the
//! message slot, both as 32-byte big-endian words.

use vstd::prelude::*;

use crate::bytes::{bytes_clone, bytes_extend, push_u64_be, spec_u64_be};
use crate::crypto::{keccak256, keccak_of};
use crate::error::RelayError;
use crate::lane::{InboundLaneState, Message, Payload};

verus! {

/// Storage slot of the lane identifier.
pub const LANE_IDENTIFY_SLOT: u64 = 0;

/// Storage slot of the lane nonces.
pub const LANE_NONCE_SLOT: u64 = 1;

/// Storage slot of the lane messages map.
pub const LANE_MESSAGE_SLOT: u64 = 2;

/// What `rlp::encode_list` returns: the RLP encoding of a list of byte
/// strings.
pub uninterp spec fn rlp_list_of(items: Seq<Seq<u8>>) -> Seq<u8>;

/// RLP-encode the node list of one proof, as the target verifier
/// expects.  Relies on `rlp::encode_list::<Vec<u8>, _>`: the RLP encoding
/// of the byte strings, a function of the items alone.
#[verifier::external_body]
fn encode_proof(proofs: &Vec<Vec<u8>>) -> (r: Vec<u8>)
    ensures
        r@ == rlp_list_of(proofs.deep_view()),
{
    rlp::encode_list::<Vec<u8>, _>(proofs.as_slice()).to_vec()
}

/// A 64-bit value as a 32-byte big-endian storage word.
pub open spec fn spec_u256_be(x: u64) -> Seq<u8> {
    Seq::new(24, |i: int| 0u8) + spec_u64_be(x)
}

/// The storage key of the message at position `pos`: the hash of its
/// position and the message slot.
pub open spec fn spec_message_storage_key(pos: u64) -> Seq<u8> {
    keccak_of(spec_u256_be(pos) + spec_u256_be(LANE_MESSAGE_SLOT))
}

/// Append the 32-byte big-endian storage word of `x`.
fn push_u256_be(out: &mut Vec<u8>, x: u64)
    ensures
        final(out)@ == old(out)@ + spec_u256_be(x),
{
    let mut i: usize = 0;
    while i < 24
        invariant
            i <= 24,
            out@ =~= old(out)@ + Seq::new(i as nat, |j: int| 0u8),
        decreases 24 - i,
    {
        out.push(0);
        proof {
            assert(out@ =~= old(out)@ + Seq::new((i + 1) as nat, |j: int| 0u8));
        }
        i = i + 1;
    }
    push_u64_be(out, x);
    proof {
        assert(out@ =~= old(out)@ + spec_u256_be(x));
    }
}

/// The storage keys of the messages `begin ..= end`.
pub fn build_message_storage_keys(begin: u64, end: u64) -> (r: Vec<Vec<u8>>)
    requires
        begin <= end,
        end - begin + 1 <= usize::MAX,
    ensures
        r@.len() == end - begin + 1,
        forall|i: int| 0 <= i < r@.len() ==> #[trigger] r@[i]@ == spec_message_storage_key(
            (begin + i) as u64,
        ),
{
    let mut r: Vec<Vec<u8>> = Vec::new();
    let mut pos = begin;
    while pos <= end
        invariant
            begin <= pos <= end,
            r@.len() == pos - begin,
            forall|i: int| 0 <= i < r@.len() ==> #[trigger] r@[i]@ == spec_message_storage_key(
                (begin + i) as u64,
            ),
        decreases end - pos,
    {
        let mut word: Vec<u8> = Vec::new();
        push_u256_be(&mut word, pos);
        push_u256_be(&mut word, LANE_MESSAGE_SLOT);
        let key = keccak256(&word);
        r.push(key);
        if pos == end {
            return r;
        }
        pos = pos + 1;
    }
    r
}

/// One storage entry of an `eth_getProof` answer: the Merkle nodes
/// witnessing that slot.
#[derive(Clone, Debug, PartialEq, Eq)]
pub struct StorageEntryProof {
    /// The proof nodes, root first.
    pub proof: Vec<Vec<u8>>,
}

/// An `eth_getProof` answer: the account proof and one entry per
/// requested storage key.
#[derive(Clone, Debug, PartialEq, Eq)]
pub struct StorageProof {
    /// Merkle nodes witnessing the account.
    pub account_proof: Vec<Vec<u8>>,
    /// One witness per requested storage key.
    pub storage_proof: Vec<StorageEntryProof>,
}

/// The messages proof a delivery transaction carries: each part
/// RLP-list-encoded.
#[derive(Clone, Debug, PartialEq, Eq)]
pub struct MessagesProof {
    /// The account proof of the outbound lane contract.
    pub account_proof: Vec<u8>,
    /// Witness of the lane-identifier slot.
    pub lane_id_proof: Vec<u8>,
    /// Witness of the lane-nonce slot.
    pub lane_nonce_proof: Vec<u8>,
    /// One witness per message of the window.
    pub lane_messages_proof: Vec<Vec<u8>>,
}

/// What the ABI encoding of a messages proof is: the
/// `(bytes, bytes, bytes, bytes[])` tuple the inbound contract takes,
/// encoded as its single call argument.
pub uninterp spec fn abi_messages_proof_of(
    account_proof: Seq<u8>,
    lane_id_proof: Seq<u8>,
    lane_nonce_proof: Seq<u8>,
    lane_messages_proof: Seq<Seq<u8>>,
) -> Seq<u8>;

/// Relies on `web3::ethabi::encode`: the deterministic ABI encoding of
/// the proof tuple, a function of the four parts alone.
#[verifier::external_body]
fn abi_encode_messages_proof(p: &MessagesProof) -> (r: Vec<u8>)
    ensures
        r@ == abi_messages_proof_of(
            p.account_proof@,
            p.lane_id_proof@,
            p.lane_nonce_proof@,
            p.lane_messages_proof.deep_view(),
        ),
{
    let parts = web3::ethabi::Token::Tuple(vec![
        web3::ethabi::Token::Bytes(p.account_proof.clone()),
        web3::ethabi::Token::Bytes(p.lane_id_proof.clone()),
        web3::ethabi::Token::Bytes(p.lane_nonce_proof.clone()),
        web3::ethabi::Token::Array(
            p.lane_messages_proof.iter().map(|x| web3::ethabi::Token::Bytes(x.clone())).collect(),
        ),
    ]);
    web3::ethabi::encode(&[parts])
}

impl MessagesProof {
    /// The proof as the single ABI-encoded argument the delivery
    /// transaction carries.
    pub fn abi_encode(&self) -> (r: Vec<u8>)
        ensures
            r@ == abi_messages_proof_of(
                self.account_proof@,
                self.lane_id_proof@,
                self.lane_nonce_proof@,
                self.lane_messages_proof.deep_view(),
            ),
    {
        abi_encode_messages_proof(self)
    }
}

/// Both lane slots came with their storage entry.
pub open spec fn spec_proof_pieces_ok(lane_id: StorageProof, lane_nonce: StorageProof) -> bool {
    lane_id.storage_proof@.len() > 0 && lane_nonce.storage_proof@.len() > 0
}

/// The assembled messages proof: each part is the RLP encoding of its
/// piece, one witness per message.
pub open spec fn spec_messages_proof_ok(
    p: MessagesProof,
    lane_id: StorageProof,
    lane_nonce: StorageProof,
    messages: StorageProof,
) -> bool {
    &&& p.account_proof@ == rlp_list_of(lane_id.account_proof.deep_view())
    &&& p.lane_id_proof@ == rlp_list_of(lane_id.storage_proof@[0].proof.deep_view())
    &&& p.lane_nonce_proof@ == rlp_list_of(lane_nonce.storage_proof@[0].proof.deep_view())
    &&& p.lane_messages_proof@.len() == messages.storage_proof@.len()
    &&& forall|i: int|
        0 <= i < p.lane_messages_proof@.len() ==> #[trigger] p.lane_messages_proof@[i]@
            == rlp_list_of(messages.storage_proof@[i].proof.deep_view())
}

/// Assemble the messages proof from the three storage proofs read at the
/// verifiable source block.  A proof piece that lacks its storage entry is
/// a failed build, reported upward — never silently truncated.
pub fn build_messages_proof(
    lane_id_proof: &StorageProof,
    lane_nonce_proof: &StorageProof,
    message_proof: &StorageProof,
) -> (r: Result<MessagesProof, RelayError>)
    ensures
        r is Ok <==> spec_proof_pieces_ok(*lane_id_proof, *lane_nonce_proof),
        r matches Ok(p) ==> spec_messages_proof_ok(
            p,
            *lane_id_proof,
            *lane_nonce_proof,
            *message_proof,
        ),
{
    if lane_id_proof.storage_proof.len() == 0 || lane_nonce_proof.storage_proof.len() == 0 {
        return Err(RelayError::EmptyStorageProof);
    }
    let account_proof = encode_proof(&lane_id_proof.account_proof);
    let lane_id = encode_proof(&lane_id_proof.storage_proof[0].proof);
    let lane_nonce = encode_proof(&lane_nonce_proof.storage_proof[0].proof);
    let n = message_proof.storage_proof.len();
    let mut lane_messages: Vec<Vec<u8>> = Vec::new();
    let mut i: usize = 0;
    while i < n
        invariant
            i <= n,
            n == message_proof.storage_proof@.len(),
            lane_messages@.len() == i,
            forall|j: int|
                0 <= j < i ==> #[trigger] lane_messages@[j]@ == rlp_list_of(
                    message_proof.storage_proof@[j].proof.deep_view(),
                ),
        decreases n - i,
    {
        let encoded = encode_proof(&message_proof.storage_proof[i].proof);
        lane_messages.push(encoded);
        i = i + 1;
    }
    Ok(
        MessagesProof {
            account_proof,
            lane_id_proof: lane_id,
            lane_nonce_proof: lane_nonce,
            lane_messages_proof: lane_messages,
        },
    )
}

/// A `MessageAccepted` event of the outbound lane contract.
#[derive(Clone, Debug, PartialEq, Eq)]
pub struct MessageAccepted {
    /// The message's nonce.
    pub nonce: u64,
    /// Source account of the payload.
    pub source: Vec<u8>,
    /// Target account of the payload.
    pub target: Vec<u8>,
    /// The encoded payload body.
    pub encoded: Vec<u8>,
    /// Block the event was emitted at.
    pub block_number: u64,
}

/// The outbound lane data a delivery transaction carries.
#[derive(Clone, Debug, PartialEq, Eq)]
pub struct OutboundLaneData {
    /// Latest nonce the target acknowledged, as of the proof's block.
    pub latest_received_nonce: u64,
    /// The messages of the window, payloads filled in from their events.
    pub messages: Vec<Message>,
}

/// A delivery message carries the stored record's nonce and key and its
/// event's payload.
pub open spec fn spec_window_message(m: Message, record: Message, event: MessageAccepted) -> bool {
    &&& m.nonce == record.nonce
    &&& m.encoded_key@ == record.encoded_key@
    &&& m.payload.source@ == event.source@
    &&& m.payload.target@ == event.target@
    &&& m.payload.encoded@ == event.encoded@
}

/// The stored records and the events cover the whole window.
pub open spec fn spec_window_covered(
    stored: Seq<Message>,
    outbound_begin: u64,
    begin: u64,
    end: u64,
    events: Seq<MessageAccepted>,
) -> bool {
    outbound_begin <= begin && end - outbound_begin < stored.len() && events.len() == end - begin
        + 1
}

/// The assembled outbound lane data: one message per nonce of the window,
/// record and event paired up in order.
pub open spec fn spec_messages_data_ok(
    d: OutboundLaneData,
    latest_received_nonce: u64,
    stored: Seq<Message>,
    outbound_begin: u64,
    begin: u64,
    end: u64,
    events: Seq<MessageAccepted>,
) -> bool {
    &&& d.latest_received_nonce == latest_received_nonce
    &&& d.messages@.len() == end - begin + 1
    &&& forall|i: int|
        0 <= i < d.messages@.len() ==> spec_window_message(
            #[trigger] d.messages@[i],
            stored[begin - outbound_begin + i],
            events[i],
        )
}

/// Pair the lane's stored messages of the window `[begin, end]` with their
/// accepted events.  `stored` holds the lane's message records from nonce
/// `outbound_begin` on; `events` one event per nonce of the window, in
/// order.  A window that the records or events do not cover is a failed
/// build.
pub fn build_messages_data(
    latest_received_nonce: u64,
    stored: &Vec<Message>,
    outbound_begin: u64,
    begin: u64,
    end: u64,
    events: &Vec<MessageAccepted>,
) -> (r: Result<OutboundLaneData, RelayError>)
    requires
        begin <= end,
        end - begin + 1 <= usize::MAX,
    ensures
        r is Ok <==> spec_window_covered(stored@, outbound_begin, begin, end, events@),
        r matches Ok(d) ==> spec_messages_data_ok(
            d,
            latest_received_nonce,
            stored@,
            outbound_begin,
            begin,
            end,
            events@,
        ),
{
    let window: u64 = end - begin + 1;
    if begin < outbound_begin {
        return Err(RelayError::WindowSizeMismatch { expected: window, actual: 0 });
    }
    let offset = begin - outbound_begin;
    let stored_len = stored.len();
    if offset >= stored_len as u64 || end - outbound_begin >= stored_len as u64 {
        return Err(RelayError::WindowSizeMismatch { expected: window, actual: 0 });
    }
    if events.len() as u64 != window {
        return Err(
            RelayError::WindowSizeMismatch { expected: window, actual: events.len() as u64 },
        );
    }
    assert(offset < stored_len as u64);
    let offset_us: usize = offset as usize;
    let mut messages: Vec<Message> = Vec::new();
    let mut i: usize = 0;
    let count = events.len();
    while i < count
        invariant
            i <= count,
            count == events@.len() == end - begin + 1,
            offset == begin - outbound_begin,
            offset_us == offset,
            offset + count <= stored@.len(),
            stored_len == stored@.len(),
            messages@.len() == i,
            forall|j: int|
                0 <= j < i ==> spec_window_message(
                    #[trigger] messages@[j],
                    stored@[offset + j],
                    events@[j],
                ),
        decreases count - i,
    {
        let record = &stored[offset_us + i];
        let event = &events[i];
        let message = Message {
            nonce: record.nonce,
            encoded_key: bytes_clone(&record.encoded_key),
            payload: Payload {
                source: bytes_clone(&event.source),
                target: bytes_clone(&event.target),
                encoded: bytes_clone(&event.encoded),
            },
        };
        messages.push(message);
        i = i + 1;
    }
    Ok(OutboundLaneData { latest_received_nonce, messages })
}

/// Keep the events only if every nonce of the window produced one.
#[verifier::loop_isolation(false)]
pub fn collect_accepted_events(logs: Vec<Option<MessageAccepted>>, begin: u64) -> (r: Result<
    Vec<MessageAccepted>,
    RelayError,
>)
    requires
        begin + logs@.len() <= u64::MAX,
    ensures
        r is Ok <==> (forall|i: int| 0 <= i < logs@.len() ==> logs@[i] is Some),
        r matches Ok(v) ==> v@.len() == logs@.len() && (forall|i: int|
            0 <= i < v@.len() ==> logs@[i] == Some(#[trigger] v@[i])),
{
    let ghost orig = logs@;
    let mut remaining = logs;
    let mut out: Vec<MessageAccepted> = Vec::new();
    let total = remaining.len();
    let mut i: usize = 0;
    while i < total
        invariant
            i <= total,
            total == orig.len(),
            begin + total <= u64::MAX,
            remaining@ =~= orig.skip(i as int),
            out@.len() == i,
            forall|j: int| 0 <= j < i ==> orig[j] == Some(#[trigger] out@[j]),
        decreases total - i,
    {
        let entry = remaining.remove(0);
        proof {
            assert(entry == orig[i as int]);
            assert(remaining@ =~= orig.skip(i + 1));
        }
        match entry {
            Some(e) => {
                out.push(e);
            },
            None => {
                proof {
                    assert(!(orig[i as int] is Some));
                    assert(exists|k: int| 0 <= k < orig.len() && !(orig[k] is Some));
                }
                return Err(RelayError::MissingEvent { nonce: begin + i as u64 });
            },
        }
        i = i + 1;
    }
    proof {
        assert forall|k: int| 0 <= k < orig.len() implies orig[k] is Some by {
            assert(orig[k] == Some(out@[k]));
        }
    }
    Ok(out)
}

/// Everything a delivery transaction carries: the outbound lane data of
/// the window and the messages proof over the same source block.
#[derive(Clone, Debug, PartialEq, Eq)]
pub struct ReceiveMessagesProof {
    /// The window's messages and the lane's received mark.
    pub outbound_lane_data: OutboundLaneData,
    /// The storage proofs backing them.
    pub messages_proof: MessagesProof,
}

/// Build everything a delivery transaction needs for the window
/// `[begin, end]`: the lane data paired with its accepted events, and the
/// storage proofs assembled for the target verifier.  All inputs must
/// have been read at the same verifiable source block.
pub fn prepare_for_messages_delivery(
    latest_received_nonce: u64,
    stored: &Vec<Message>,
    outbound_begin: u64,
    begin: u64,
    end: u64,
    events: &Vec<MessageAccepted>,
    lane_id_proof: &StorageProof,
    lane_nonce_proof: &StorageProof,
    message_proof: &StorageProof,
) -> (r: Result<ReceiveMessagesProof, RelayError>)
    requires
        begin <= end,
        end - begin + 1 <= usize::MAX,
    ensures
        r is Ok <==> spec_window_covered(stored@, outbound_begin, begin, end, events@)
            && spec_proof_pieces_ok(*lane_id_proof, *lane_nonce_proof),
        r matches Ok(p) ==> spec_messages_data_ok(
            p.outbound_lane_data,
            latest_received_nonce,
            stored@,
            outbound_begin,
            begin,
            end,
            events@,
        ) && spec_messages_proof_ok(
            p.messages_proof,
            *lane_id_proof,
            *lane_nonce_proof,
            *message_proof,
        ),
{
    let outbound_lane_data = build_messages_data(
        latest_received_nonce,
        stored,
        outbound_begin,
        begin,
        end,
        events,
    )?;
    let messages_proof = build_messages_proof(lane_id_proof, lane_nonce_proof, message_proof)?;
    Ok(ReceiveMessagesProof { outbound_lane_data, messages_proof })
}

/// Everything a confirmation transaction carries: the inbound lane data
/// read at the source-verifiable target block, and the proof of it.
#[derive(Clone, Debug, PartialEq, Eq)]
pub struct ReceiveMessagesDeliveryProof {
    /// The target's inbound lane state the proof witnesses.
    pub inbound_lane_data: InboundLaneState,
    /// The account proof followed by the lane-data witness, each
    /// RLP-list-encoded.
    pub messages_proof: Vec<u8>,
}

/// Build everything a confirmation transaction needs: the inbound lane
/// data and the storage proof of the lane-data slot, both read at the
/// same target block.
pub fn prepare_for_messages_confirmation(
    inbound_lane_data: InboundLaneState,
    lane_data_proof: &StorageProof,
) -> (r: Result<ReceiveMessagesDeliveryProof, RelayError>)
    ensures
        r is Ok <==> lane_data_proof.storage_proof@.len() > 0,
        r matches Ok(p) ==> p.inbound_lane_data == inbound_lane_data && p.messages_proof@
            == rlp_list_of(lane_data_proof.account_proof.deep_view()) + rlp_list_of(
            lane_data_proof.storage_proof@[0].proof.deep_view(),
        ),
{
    if lane_data_proof.storage_proof.len() == 0 {
        return Err(RelayError::EmptyStorageProof);
    }
    let mut messages_proof = encode_proof(&lane_data_proof.account_proof);
    let lane_witness = encode_proof(&lane_data_proof.storage_proof[0].proof);
    bytes_extend(&mut messages_proof, &lane_witness);
    Ok(ReceiveMessagesDeliveryProof { inbound_lane_data, messages_proof })
}

/// A nonce's accepted event is unambiguous only when exactly one log
/// matched the query.
pub fn pick_single_event(events: Vec<MessageAccepted>) -> (r: Option<MessageAccepted>)
    ensures
        r is Some <==> events@.len() == 1,
        r matches Some(e) ==> e == events@[0],
{
    let mut events = events;
    if events.len() == 1 {
        events.pop()
    } else {
        None
    }
}

} // verus!
