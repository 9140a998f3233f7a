//! Lane state as read from the two chains.
//!
//! A lane is a unidirectional, nonce-ordered message channel.  The library
//! never creates or destroys lane state: it mirrors what the chains report
//! and re-reads it every iteration.  The two invariants below hold of every
//! state this library accepts or hands out, before and after every delivery
//! or confirmation step.

use vstd::prelude::*;

use crate::error::RelayError;

verus! {

/// Outbound lane state, read from the source chain.
#[derive(Clone, Copy, Debug, PartialEq, Eq, Structural)]
pub struct OutboundLaneState {
    /// Highest nonce ever queued on this lane.
    pub latest_generated_nonce: u64,
    /// Highest nonce the target chain has acknowledged as confirmed.
    pub latest_received_nonce: u64,
}

impl OutboundLaneState {
    /// Invariant of every outbound lane: nothing is confirmed before it is
    /// generated.
    pub open spec fn wf(self) -> bool {
        self.latest_received_nonce <= self.latest_generated_nonce
    }

    /// Validate a raw chain read.  A read that breaks the lane invariant is
    /// rejected instead of being carried into the engines.
    pub fn new(latest_received_nonce: u64, latest_generated_nonce: u64) -> (r: Result<
        Self,
        RelayError,
    >)
        ensures
            r is Ok <==> latest_received_nonce <= latest_generated_nonce,
            r matches Ok(s) ==> s.latest_received_nonce == latest_received_nonce
                && s.latest_generated_nonce == latest_generated_nonce && s.wf(),
    {
        if latest_received_nonce <= latest_generated_nonce {
            Ok(OutboundLaneState { latest_generated_nonce, latest_received_nonce })
        } else {
            Err(RelayError::InvalidLaneState {
                lower: latest_received_nonce,
                upper: latest_generated_nonce,
            })
        }
    }
}

/// Inbound lane state, read from the target chain.
#[derive(Clone, Copy, Debug, PartialEq, Eq, Structural)]
pub struct InboundLaneState {
    /// Highest nonce the target chain has accepted.
    pub last_delivered_nonce: u64,
    /// Highest nonce the target chain has rewarded and cleared.
    pub last_confirmed_nonce: u64,
    /// Front of the nonce range of not-yet-rewarded relayers.
    pub relayer_range_front: u64,
    /// Back of the nonce range of not-yet-rewarded relayers.
    pub relayer_range_back: u64,
}

impl InboundLaneState {
    /// Invariant of every inbound lane: nothing is rewarded before it is
    /// delivered.
    pub open spec fn wf(self) -> bool {
        self.last_confirmed_nonce <= self.last_delivered_nonce
    }

    /// Validate a raw chain read against the lane invariant.
    pub fn new(
        last_delivered_nonce: u64,
        last_confirmed_nonce: u64,
        relayer_range_front: u64,
        relayer_range_back: u64,
    ) -> (r: Result<Self, RelayError>)
        ensures
            r is Ok <==> last_confirmed_nonce <= last_delivered_nonce,
            r matches Ok(s) ==> s == (InboundLaneState {
                last_delivered_nonce,
                last_confirmed_nonce,
                relayer_range_front,
                relayer_range_back,
            }) && s.wf(),
    {
        if last_confirmed_nonce <= last_delivered_nonce {
            Ok(
                InboundLaneState {
                    last_delivered_nonce,
                    last_confirmed_nonce,
                    relayer_range_front,
                    relayer_range_back,
                },
            )
        } else {
            Err(RelayError::InvalidLaneState {
                lower: last_confirmed_nonce,
                upper: last_delivered_nonce,
            })
        }
    }
}

/// Payload of a lane message.
#[derive(Clone, Debug, PartialEq, Eq)]
pub struct Payload {
    /// Source account or contract, as raw bytes.
    pub source: Vec<u8>,
    /// Target account or contract, as raw bytes.
    pub target: Vec<u8>,
    /// The message body, already encoded for the target chain.
    pub encoded: Vec<u8>,
}

/// One message queued on a lane.  Nonces within a lane are contiguous and
/// strictly increasing.
#[derive(Clone, Debug, PartialEq, Eq)]
pub struct Message {
    /// Per-lane sequence number.
    pub nonce: u64,
    /// The message key as stored by the outbound lane contract.
    pub encoded_key: Vec<u8>,
    /// The message payload.
    pub payload: Payload,
}

} // verus!
