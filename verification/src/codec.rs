//! Framing of delivery and confirmation proofs.
//!
//! A proof travels with the window it covers and the block it was built
//! at: three (for a confirmation, seven) little-endian 64-bit words,
//! then the opaque proof bytes the target verifier consumes.  Decoding an
//! encoded proof gives back exactly the proof that was encoded — the
//! window is never silently changed in transit.

use vstd::prelude::*;

use crate::bytes::{bytes_extend, bytes_range, push_u64_le, read_u64_le, spec_u64_le};
use crate::lane::InboundLaneState;

verus! {

/// A delivery proof: the window `[begin, end]`, the source block the
/// proof was built at, and the verifier's proof bytes.
#[derive(Clone, Debug, PartialEq, Eq)]
pub struct DeliveryProof {
    /// First nonce the proof covers.
    pub begin: u64,
    /// Last nonce the proof covers.
    pub end: u64,
    /// Source block the proof was built at.
    pub at_block: u64,
    /// Opaque proof bytes.
    pub proof: Vec<u8>,
}

/// A confirmation proof: the unrewarded-relayer range `[begin, end]`, the
/// target block it was read at, the inbound lane state it witnesses, and
/// the verifier's proof bytes.
#[derive(Clone, Debug, PartialEq, Eq)]
pub struct ConfirmationProof {
    /// Front of the unrewarded-relayer range.
    pub begin: u64,
    /// Back of the unrewarded-relayer range.
    pub end: u64,
    /// Target block the proof was read at.
    pub at_block: u64,
    /// The inbound lane state the proof witnesses.
    pub inbound: InboundLaneState,
    /// Opaque proof bytes.
    pub proof: Vec<u8>,
}

/// The integer eight little-endian bytes stand for.
pub open spec fn spec_u64_from_le(s: Seq<u8>) -> u64 {
    (s[0] as u64) | ((s[1] as u64) << 8) | ((s[2] as u64) << 16) | ((s[3] as u64) << 24) | ((
    s[4] as u64) << 32) | ((s[5] as u64) << 40) | ((s[6] as u64) << 48) | ((s[7] as u64) << 56)
}

/// Serializing an integer and reading it back is the identity.
pub proof fn lemma_from_le_of_le(x: u64)
    ensures
        spec_u64_from_le(spec_u64_le(x)) == x,
{
    assert(((x as u8) as u64) | ((((x >> 8) as u8) as u64) << 8) | ((((x >> 16) as u8) as u64)
        << 16) | ((((x >> 24) as u8) as u64) << 24) | ((((x >> 32) as u8) as u64) << 32) | ((((x
        >> 40) as u8) as u64) << 40) | ((((x >> 48) as u8) as u64) << 48) | ((((x >> 56) as u8
    ) as u64) << 56) == x) by (bit_vector);
}

/// The wire form of a delivery proof.
pub open spec fn spec_encode_delivery(begin: u64, end: u64, at_block: u64, proof: Seq<u8>) -> Seq<
    u8,
> {
    spec_u64_le(begin) + spec_u64_le(end) + spec_u64_le(at_block) + proof
}

/// Parse the wire form of a delivery proof.
pub open spec fn spec_decode_delivery(s: Seq<u8>) -> Option<(u64, u64, u64, Seq<u8>)> {
    if s.len() < 24 {
        None
    } else {
        Some(
            (
                spec_u64_from_le(s.subrange(0, 8)),
                spec_u64_from_le(s.subrange(8, 16)),
                spec_u64_from_le(s.subrange(16, 24)),
                s.skip(24),
            ),
        )
    }
}

/// Round trip: decoding an encoded delivery proof yields exactly the
/// window, block and proof bytes that were encoded.
pub proof fn lemma_delivery_round_trip(begin: u64, end: u64, at_block: u64, proof: Seq<u8>)
    ensures
        spec_decode_delivery(spec_encode_delivery(begin, end, at_block, proof)) == Some(
            (begin, end, at_block, proof),
        ),
{
    let s = spec_encode_delivery(begin, end, at_block, proof);
    assert(s.subrange(0, 8) =~= spec_u64_le(begin));
    assert(s.subrange(8, 16) =~= spec_u64_le(end));
    assert(s.subrange(16, 24) =~= spec_u64_le(at_block));
    assert(s.skip(24) =~= proof);
    lemma_from_le_of_le(begin);
    lemma_from_le_of_le(end);
    lemma_from_le_of_le(at_block);
}

/// Encode a delivery proof for transport.
pub fn encode_delivery_proof(p: &DeliveryProof) -> (r: Vec<u8>)
    ensures
        r@ == spec_encode_delivery(p.begin, p.end, p.at_block, p.proof@),
{
    let mut out: Vec<u8> = Vec::new();
    push_u64_le(&mut out, p.begin);
    push_u64_le(&mut out, p.end);
    push_u64_le(&mut out, p.at_block);
    bytes_extend(&mut out, &p.proof);
    proof {
        assert(out@ =~= spec_encode_delivery(p.begin, p.end, p.at_block, p.proof@));
    }
    out
}

/// Decode a delivery proof.  Only a buffer too short to hold the header
/// is rejected.
pub fn decode_delivery_proof(bytes: &Vec<u8>) -> (r: Option<DeliveryProof>)
    ensures
        r is Some <==> bytes@.len() >= 24,
        r matches Some(p) ==> spec_decode_delivery(bytes@) == Some(
            (p.begin, p.end, p.at_block, p.proof@),
        ),
{
    let n = bytes.len();
    if n < 24 {
        return None;
    }
    let begin = read_u64_le(bytes, 0);
    let end = read_u64_le(bytes, 8);
    let at_block = read_u64_le(bytes, 16);
    let proof = bytes_range(bytes, 24, n);
    proof {
        lemma_from_le_of_le(begin);
        lemma_from_le_of_le(end);
        lemma_from_le_of_le(at_block);
        assert(bytes@.skip(24) =~= bytes@.subrange(24, n as int));
    }
    Some(DeliveryProof { begin, end, at_block, proof })
}

/// The wire form of a confirmation proof.
pub open spec fn spec_encode_confirmation(
    begin: u64,
    end: u64,
    at_block: u64,
    inbound: InboundLaneState,
    proof: Seq<u8>,
) -> Seq<u8> {
    spec_u64_le(begin) + spec_u64_le(end) + spec_u64_le(at_block) + spec_u64_le(
        inbound.last_delivered_nonce,
    ) + spec_u64_le(inbound.last_confirmed_nonce) + spec_u64_le(inbound.relayer_range_front)
        + spec_u64_le(inbound.relayer_range_back) + proof
}

/// Parse the wire form of a confirmation proof.
pub open spec fn spec_decode_confirmation(s: Seq<u8>) -> Option<
    (u64, u64, u64, InboundLaneState, Seq<u8>),
> {
    if s.len() < 56 {
        None
    } else {
        Some(
            (
                spec_u64_from_le(s.subrange(0, 8)),
                spec_u64_from_le(s.subrange(8, 16)),
                spec_u64_from_le(s.subrange(16, 24)),
                InboundLaneState {
                    last_delivered_nonce: spec_u64_from_le(s.subrange(24, 32)),
                    last_confirmed_nonce: spec_u64_from_le(s.subrange(32, 40)),
                    relayer_range_front: spec_u64_from_le(s.subrange(40, 48)),
                    relayer_range_back: spec_u64_from_le(s.subrange(48, 56)),
                },
                s.skip(56),
            ),
        )
    }
}

/// Round trip: decoding an encoded confirmation proof yields exactly the
/// range, block, lane state and proof bytes that were encoded.
pub proof fn lemma_confirmation_round_trip(
    begin: u64,
    end: u64,
    at_block: u64,
    inbound: InboundLaneState,
    proof: Seq<u8>,
)
    ensures
        spec_decode_confirmation(spec_encode_confirmation(begin, end, at_block, inbound, proof))
            == Some((begin, end, at_block, inbound, proof)),
{
    let s = spec_encode_confirmation(begin, end, at_block, inbound, proof);
    assert(s.subrange(0, 8) =~= spec_u64_le(begin));
    assert(s.subrange(8, 16) =~= spec_u64_le(end));
    assert(s.subrange(16, 24) =~= spec_u64_le(at_block));
    assert(s.subrange(24, 32) =~= spec_u64_le(inbound.last_delivered_nonce));
    assert(s.subrange(32, 40) =~= spec_u64_le(inbound.last_confirmed_nonce));
    assert(s.subrange(40, 48) =~= spec_u64_le(inbound.relayer_range_front));
    assert(s.subrange(48, 56) =~= spec_u64_le(inbound.relayer_range_back));
    assert(s.skip(56) =~= proof);
    lemma_from_le_of_le(begin);
    lemma_from_le_of_le(end);
    lemma_from_le_of_le(at_block);
    lemma_from_le_of_le(inbound.last_delivered_nonce);
    lemma_from_le_of_le(inbound.last_confirmed_nonce);
    lemma_from_le_of_le(inbound.relayer_range_front);
    lemma_from_le_of_le(inbound.relayer_range_back);
}

/// Encode a confirmation proof for transport.
pub fn encode_confirmation_proof(p: &ConfirmationProof) -> (r: Vec<u8>)
    ensures
        r@ == spec_encode_confirmation(p.begin, p.end, p.at_block, p.inbound, p.proof@),
{
    let mut out: Vec<u8> = Vec::new();
    push_u64_le(&mut out, p.begin);
    push_u64_le(&mut out, p.end);
    push_u64_le(&mut out, p.at_block);
    push_u64_le(&mut out, p.inbound.last_delivered_nonce);
    push_u64_le(&mut out, p.inbound.last_confirmed_nonce);
    push_u64_le(&mut out, p.inbound.relayer_range_front);
    push_u64_le(&mut out, p.inbound.relayer_range_back);
    bytes_extend(&mut out, &p.proof);
    proof {
        assert(out@ =~= spec_encode_confirmation(p.begin, p.end, p.at_block, p.inbound, p.proof@));
    }
    out
}

/// Decode a confirmation proof.  Only a buffer too short to hold the
/// header is rejected.
pub fn decode_confirmation_proof(bytes: &Vec<u8>) -> (r: Option<ConfirmationProof>)
    ensures
        r is Some <==> bytes@.len() >= 56,
        r matches Some(p) ==> spec_decode_confirmation(bytes@) == Some(
            (p.begin, p.end, p.at_block, p.inbound, p.proof@),
        ),
{
    let n = bytes.len();
    if n < 56 {
        return None;
    }
    let begin = read_u64_le(bytes, 0);
    let end = read_u64_le(bytes, 8);
    let at_block = read_u64_le(bytes, 16);
    let last_delivered_nonce = read_u64_le(bytes, 24);
    let last_confirmed_nonce = read_u64_le(bytes, 32);
    let relayer_range_front = read_u64_le(bytes, 40);
    let relayer_range_back = read_u64_le(bytes, 48);
    let proof = bytes_range(bytes, 56, n);
    proof {
        lemma_from_le_of_le(begin);
        lemma_from_le_of_le(end);
        lemma_from_le_of_le(at_block);
        lemma_from_le_of_le(last_delivered_nonce);
        lemma_from_le_of_le(last_confirmed_nonce);
        lemma_from_le_of_le(relayer_range_front);
        lemma_from_le_of_le(relayer_range_back);
        assert(bytes@.skip(56) =~= bytes@.subrange(56, n as int));
    }
    Some(
        ConfirmationProof {
            begin,
            end,
            at_block,
            inbound: InboundLaneState {
                last_delivered_nonce,
                last_confirmed_nonce,
                relayer_range_front,
                relayer_range_back,
            },
            proof,
        },
    )
}

} // verus!
