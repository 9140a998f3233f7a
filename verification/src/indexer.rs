//! Types served by the block indexers the relays poll.
//!
//! The indexer is an external capability: it answers "the next block or
//! event of this kind at or after X".  Its answers arrive as plain records
//! with hex-encoded hashes; decoding the hex is the only computation done
//! on them here.

use vstd::prelude::*;
use vstd::string::StringSliceAdditionalSpecFns;
use vstd::utf8::encode_utf8;

use crate::error::RelayError;

verus! {

/// A hexadecimal digit in ASCII.
pub open spec fn spec_is_hex_digit(c: u8) -> bool {
    (48 <= c <= 57) || (97 <= c <= 102) || (65 <= c <= 70)
}

/// The value of one ASCII hex digit.
pub open spec fn spec_hex_val(c: u8) -> u8 {
    if 48 <= c <= 57 {
        (c - 48) as u8
    } else if 97 <= c <= 102 {
        (c - 87) as u8
    } else {
        (c - 55) as u8
    }
}

/// Drop an optional `0x` prefix.
pub open spec fn spec_strip_0x(s: Seq<u8>) -> Seq<u8> {
    if s.len() >= 2 && s[0] == 48 && s[1] == 120 {
        s.skip(2)
    } else {
        s
    }
}

/// Whether the bytes are a decodable hex string: an even number of hex
/// digits after the optional prefix.
pub open spec fn spec_hex_ok(s: Seq<u8>) -> bool {
    let h = spec_strip_0x(s);
    h.len() % 2 == 0 && (forall|i: int| 0 <= i < h.len() ==> spec_is_hex_digit(#[trigger] h[i]))
}

/// The bytes a hex string decodes to, two digits per byte.
pub open spec fn spec_hex_decode(s: Seq<u8>) -> Seq<u8> {
    let h = spec_strip_0x(s);
    Seq::new((h.len() / 2) as nat, |i: int| (spec_hex_val(h[2 * i]) * 16 + spec_hex_val(h[2 * i + 1])) as u8)
}

/// Relies on `array_bytes::Dehexify` for `Vec<u8>`: strips an optional
/// `0x`, rejects odd lengths and non-hex characters, and decodes two
/// digits to each byte, high digit first.
#[verifier::external_body]
fn hex2bytes(s: &str) -> (r: Result<Vec<u8>, RelayError>)
    ensures
        r is Ok <==> spec_hex_ok(s.spec_bytes()),
        r matches Ok(v) ==> v@ == spec_hex_decode(s.spec_bytes()),
{
    match <Vec<u8> as array_bytes::Dehexify>::dehexify(s) {
        Ok(v) => Ok(v),
        Err(_) => Err(RelayError::InvalidHex),
    }
}

/// The chains an indexer in this family can serve.
#[derive(Clone, Debug, PartialEq, Eq, Structural)]
pub enum LikethChain {
    Ethereum,
    Ropsten,
    Pangoro,
    Darwinia,
}

impl LikethChain {
    /// The query directory of this chain's indexer.
    pub fn directory(&self) -> (r: &str)
        ensures
            r@ == match *self {
                LikethChain::Ethereum => "ethereum"@,
                LikethChain::Ropsten => "ropsten"@,
                LikethChain::Pangoro => "pangoro"@,
                LikethChain::Darwinia => "darwinia"@,
            },
    {
        match self {
            LikethChain::Ethereum => "ethereum",
            LikethChain::Ropsten => "ropsten",
            LikethChain::Pangoro => "pangoro",
            LikethChain::Darwinia => "darwinia",
        }
    }
}

/// Why a header relay wants a block, as the query filters it.
#[derive(Clone, Copy, Debug, PartialEq, Eq, Structural)]
pub enum OriginType {
    Mandatory,
    BridgePangoro,
    BridgePangolinParachain,
    BridgePangolin,
    BridgeCrabParachain,
    BridgeCrab,
    BridgeDarwinia,
}

/// Whether a block must be relayed or only when messages want it.
#[derive(Clone, Copy, Debug, PartialEq, Eq, Structural)]
pub enum RelayBlockType {
    Mandatory,
    OnDemand,
}

/// Which bridge's demand put a block on the relay queue.
#[derive(Clone, Copy, Debug, PartialEq, Eq, Structural)]
pub enum RelayBlockOrigin {
    Mandatory,
    BridgePangolin,
    BridgePangoro,
    BridgePangolinParachain,
    BridgeCrabParachain,
    BridgeCrab,
    BridgeDarwinia,
}

/// A block the header relay has to bring over.
#[derive(Clone, Debug, PartialEq, Eq)]
pub struct NeedRelayBlock {
    /// Indexer row id.
    pub id: String,
    /// The block's number.
    pub block_number: u32,
    /// The block's hash, hex-encoded.
    pub block_hash: String,
    /// Mandatory or on-demand.
    pub type_: RelayBlockType,
    /// Which bridge asked for it.
    pub origin: RelayBlockOrigin,
    /// Lane that asked for it, for on-demand blocks.
    pub lane_id: Option<String>,
    /// Message nonce that asked for it, for on-demand blocks.
    pub message_nonce: Option<u64>,
    /// Parent hash.
    pub parent_hash: [u8; 32],
    /// State root.
    pub state_root: [u8; 32],
    /// Extrinsics root.
    pub extrinsics_root: [u8; 32],
    /// The header digest bytes.
    pub digest: Vec<u8>,
}

impl NeedRelayBlock {
    /// Whether this block must be relayed unconditionally.
    pub fn is_mandatory(&self) -> (r: bool)
        ensures
            r == (self.type_ is Mandatory),
    {
        matches!(self.type_, RelayBlockType::Mandatory)
    }

    /// The block hash as raw bytes.
    pub fn block_hash_bytes(&self) -> (r: Result<Vec<u8>, RelayError>)
        ensures
            r is Ok <==> spec_hex_ok(encode_utf8(self.block_hash@)),
            r matches Ok(v) ==> v@ == spec_hex_decode(encode_utf8(self.block_hash@)),
    {
        hex2bytes(self.block_hash.as_str())
    }
}

/// A finality justification the indexer stored for a block.
#[derive(Clone, Debug, PartialEq, Eq)]
pub struct JustificationMapping {
    /// Indexer row id.
    pub id: String,
    /// The block's number.
    pub block_number: u32,
    /// The block's hash, hex-encoded.
    pub block_hash: String,
    /// Whether the block is mandatory.
    pub mandatory: bool,
    /// The raw justification bytes.
    pub justification: Vec<u8>,
}

/// A parachain candidate inclusion the relay chain recorded.
#[derive(Clone, Debug, PartialEq, Eq)]
pub struct CandidateIncludedEvent {
    /// Indexer row id.
    pub id: String,
    /// Relay-chain block of the inclusion.
    pub included_relay_block: u32,
    /// The parachain's id.
    pub para_id: u32,
    /// The candidate's signature, hex-encoded.
    pub signature: String,
    /// The parachain head, hex-encoded.
    pub para_head: String,
    /// The relay parent, hex-encoded.
    pub relay_parent: String,
}

} // verus!
