//! The message-lane engine: one delivery step and one confirmation step.
//!
//! Each step takes the chain state read fresh for this iteration, consults
//! the capability interfaces, and returns the action to perform — or the
//! reason nothing is to be done.  The caller performs the returned action
//! (one signed transaction at most) and re-reads state on the next
//! iteration, so a restart at any point is safe.

use vstd::prelude::*;

use crate::bytes::bytes_eq;
use crate::delivery::{run_delivery_walk, spec_delivered_count, spec_walk, RelayStrategy};
use crate::error::RelayError;
use crate::lane::{InboundLaneState, OutboundLaneState};

verus! {

/// A delivery proof together with the encoded key of every message in the
/// window it covers, in nonce order.
pub struct DeliveryProofBundle {
    /// Opaque proof bytes the target chain's verifier accepts.
    pub proof: Vec<u8>,
    /// Encoded key per nonce of the window.
    pub keys: Vec<Vec<u8>>,
}

/// Capability interface: builds light-client-verifiable proofs against a
/// given source block.  Implemented by collaborators; never cached across
/// attempts because the source block root changes.
pub trait ProofProvider {
    /// Build the delivery proof covering `[begin, end]` at `at_block`.
    fn build_proof(&mut self, begin: u64, end: u64, at_block: u64) -> Result<
        DeliveryProofBundle,
        RelayError,
    >;
}

/// What a delivery iteration decided.
pub enum RelayAction {
    /// Nothing to do: the target already delivered everything generated,
    /// or the verifiable window is empty.
    NothingToDo,
    /// The target's light client has no verifiable source block yet; wait
    /// for the header relay.
    WaitForVerifiableHeader,
    /// The messages to relay lie beyond the verifiable head; wait for the
    /// header relay to catch up.
    WaitForHeaderRelay,
    /// The walk included no new message; skip the submission.
    NothingNew,
    /// Submit one transaction with this proof, declaring `count` messages
    /// of the window `[begin, end]`.
    Submit { begin: u64, end: u64, count: u64, proof: Vec<u8> },
}

/// What a confirmation iteration decided.
pub enum ConfirmAction {
    /// Everything generated is already confirmed.
    AllConfirmed,
    /// The latest received nonce matches the target's delivered nonce;
    /// wait for more deliveries before confirming.
    WaitForDelivery,
    /// Submit the confirmation proof for the unrewarded-relayer range
    /// `[begin, end]` read at the given target block.
    Confirm { begin: u64, end: u64, at_block: u64 },
}

/// Gas budgeted per message of a delivery window, plus one unit of
/// fixed overhead.
pub const GAS_PER_MESSAGE: u64 = 300000;

/// The gas budget of a delivery transaction over `[begin, end]`: it
/// scales with the window size and is computed before submission, never
/// assumed constant.  A window too large to budget is refused.
pub fn delivery_gas_budget(begin: u64, end: u64) -> (r: Option<u64>)
    requires
        begin <= end,
        end - begin + 2 <= u64::MAX,
    ensures
        r is Some <==> GAS_PER_MESSAGE * (end - begin + 2) <= u64::MAX,
        r matches Some(g) ==> g == GAS_PER_MESSAGE * (end - begin + 2),
{
    let units = end - begin + 2;
    let limit = u64::MAX / GAS_PER_MESSAGE;
    proof {
        vstd::arithmetic::div_mod::lemma_fundamental_div_mod(u64::MAX as int, GAS_PER_MESSAGE as int);
    }
    if units > limit {
        assert(GAS_PER_MESSAGE as int * units as int > u64::MAX as int) by (nonlinear_arith)
            requires
                units as int >= limit as int + 1,
                u64::MAX as int == GAS_PER_MESSAGE as int * limit as int + u64::MAX as int
                    % GAS_PER_MESSAGE as int,
                0 <= (u64::MAX as int % GAS_PER_MESSAGE as int),
                (u64::MAX as int % GAS_PER_MESSAGE as int) < GAS_PER_MESSAGE as int,
        {}
        None
    } else {
        assert(GAS_PER_MESSAGE as int * units as int <= u64::MAX as int) by (nonlinear_arith)
            requires
                units <= limit,
                u64::MAX as int == GAS_PER_MESSAGE as int * limit as int + u64::MAX as int
                    % GAS_PER_MESSAGE as int,
                0 <= (u64::MAX as int % GAS_PER_MESSAGE as int),
        {}
        Some(GAS_PER_MESSAGE * units)
    }
}

/// The nonce window a delivery submission may cover, recomputed against the
/// outbound state at the verifiable head: `[latest_received + 1,
/// latest_generated]`.
pub open spec fn spec_delivery_window(verifiable: OutboundLaneState) -> (int, int) {
    (verifiable.latest_received_nonce + 1, verifiable.latest_generated_nonce as int)
}

/// What a delivery submission promises: it covers exactly the verifiable
/// window, its count is a walk outcome over some sequence of strategy
/// answers, and it relays at least one new message.
pub open spec fn spec_submission_ok(
    inbound: InboundLaneState,
    verifiable: OutboundLaneState,
    confirm_limit: u64,
    max_new: u64,
    begin: u64,
    end: u64,
    count: u64,
) -> bool {
    let w = spec_delivery_window(verifiable);
    let cap = inbound.last_confirmed_nonce + confirm_limit;
    &&& begin == w.0
    &&& end == w.1
    &&& begin <= end
    &&& exists|ds: Seq<bool>|
        count == #[trigger] spec_walk(
            begin as int,
            end as int,
            inbound.last_delivered_nonce as int,
            cap,
            0,
            max_new as int,
            ds,
        ).0
    &&& count > spec_delivered_count(
        begin as int,
        end as int,
        inbound.last_delivered_nonce as int,
        cap,
    )
    &&& count <= end - begin + 1
}

/// The message-lane engine for one lane and one direction, parametrized
/// over the relay strategy and the proof provider.
pub struct MessageRelay<S: RelayStrategy, P: ProofProvider> {
    /// Decides, per candidate nonce, whether relaying pays.
    pub strategy: S,
    /// Builds the delivery proof for a window.
    pub proof_provider: P,
    /// Capacity limit: how far delivery may run ahead of
    /// `last_confirmed_nonce` before confirmations must catch up.
    pub confirm_limit: u64,
    /// Cap on newly relayed messages per submission.
    pub max_messages_per_relaying: u64,
}

impl<S: RelayStrategy, P: ProofProvider> MessageRelay<S, P> {
    /// Well-formed engine configuration.
    pub open spec fn wf(self) -> bool {
        self.max_messages_per_relaying >= 1
    }

    /// One delivery iteration.
    ///
    /// `latest` is the source outbound state at head, `inbound` the target
    /// inbound state, and `verifiable` the source outbound state at the
    /// newest source block the target's light client can verify — `None`
    /// while the light client has no finalized source block, paired with
    /// that block's number otherwise.
    ///
    /// The lane invariants hold of every state this step reads and are
    /// untouched by it: the step only ever submits a proof, it never
    /// rewrites lane state.  A window whose walk includes no new message is
    /// never submitted.
    pub fn message_relay(
        &mut self,
        latest: &OutboundLaneState,
        inbound: &InboundLaneState,
        verifiable: Option<(OutboundLaneState, u64)>,
    ) -> (r: Result<RelayAction, RelayError>)
        requires
            old(self).wf(),
            latest.wf(),
            inbound.wf(),
            verifiable matches Some(v) ==> v.0.wf(),
        ensures
            latest.wf() && inbound.wf(),
            final(self).confirm_limit == old(self).confirm_limit,
            final(self).max_messages_per_relaying == old(self).max_messages_per_relaying,
            r matches Ok(a) ==> {
                &&& (a is WaitForVerifiableHeader ==> verifiable is None)
                &&& (verifiable is None ==> a is WaitForVerifiableHeader || a is NothingToDo)
                &&& (inbound.last_delivered_nonce == latest.latest_generated_nonce ==> a
                    is NothingToDo)
                &&& (verifiable matches Some(v) ==> (a is WaitForHeaderRelay <==> inbound
                    .last_delivered_nonce != latest.latest_generated_nonce
                    && inbound.last_delivered_nonce >= v.0.latest_generated_nonce))
                &&& (a is Submit ==> verifiable is Some && spec_submission_ok(
                    *inbound,
                    (verifiable->Some_0).0,
                    old(self).confirm_limit,
                    old(self).max_messages_per_relaying,
                    a->begin,
                    a->end,
                    a->count,
                ))
            },
            // Success is owed on every path the engine decides alone; only
            // the proof provider and the strategy can fail an iteration.
            inbound.last_delivered_nonce == latest.latest_generated_nonce ==> (r matches Ok(a)
                && a is NothingToDo),
            verifiable is None ==> r is Ok,
            verifiable matches Some(v) && inbound.last_delivered_nonce
                != latest.latest_generated_nonce && inbound.last_delivered_nonce
                >= v.0.latest_generated_nonce ==> r is Ok,
            verifiable matches Some(v) && (v.0.latest_received_nonce >= v.0.latest_generated_nonce
                || v.0.latest_generated_nonce == u64::MAX) ==> r is Ok,
            r is Err ==> verifiable is Some && inbound.last_delivered_nonce
                != latest.latest_generated_nonce,
    {
        if inbound.last_delivered_nonce == latest.latest_generated_nonce {
            // Everything generated has been delivered.
            return Ok(RelayAction::NothingToDo);
        }
        let (outbound_at_head, finalized_block) = match verifiable {
            None => {
                return Ok(RelayAction::WaitForVerifiableHeader);
            },
            Some(v) => v,
        };
        if inbound.last_delivered_nonce >= outbound_at_head.latest_generated_nonce {
            // The undelivered messages lie past the verifiable head.
            return Ok(RelayAction::WaitForHeaderRelay);
        }
        if outbound_at_head.latest_received_nonce >= outbound_at_head.latest_generated_nonce
            || outbound_at_head.latest_generated_nonce == u64::MAX {
            // An empty window means no work; a window ending at the nonce
            // ceiling cannot be walked.
            return Ok(RelayAction::NothingToDo);
        }
        let begin = outbound_at_head.latest_received_nonce + 1;
        let end = outbound_at_head.latest_generated_nonce;
        let bundle = self.proof_provider.build_proof(begin, end, finalized_block)?;
        if bundle.keys.len() as u64 != end - begin + 1 {
            // The proof does not cover the window it was asked for.
            return Err(
                RelayError::WindowSizeMismatch {
                    expected: end - begin + 1,
                    actual: bundle.keys.len() as u64,
                },
            );
        }
        let (plan, ds) = run_delivery_walk(
            begin,
            end,
            &bundle.keys,
            inbound.last_delivered_nonce,
            inbound.last_confirmed_nonce,
            self.confirm_limit,
            self.max_messages_per_relaying,
            &mut self.strategy,
        )?;
        if plan.count == plan.delivered {
            // Nothing new would be relayed: skip the submission.
            return Ok(RelayAction::NothingNew);
        }
        proof {
            let cap = inbound.last_confirmed_nonce + self.confirm_limit;
            assert(self.confirm_limit == old(self).confirm_limit);
            assert(plan.count == spec_walk(
                begin as int,
                end as int,
                inbound.last_delivered_nonce as int,
                cap,
                0,
                self.max_messages_per_relaying as int,
                ds@,
            ).0);
        }
        Ok(RelayAction::Submit { begin, end, count: plan.count, proof: bundle.proof })
    }

    /// One confirmation iteration.
    ///
    /// `outbound` is the source outbound state at head, `target_inbound`
    /// the target inbound state at the newest target block the source can
    /// verify (`at_block`).  The lane invariants hold of every state this
    /// step reads and are untouched by it.
    pub fn message_confirm(
        &self,
        outbound: &OutboundLaneState,
        target_inbound: &InboundLaneState,
        at_block: u64,
    ) -> (r: ConfirmAction)
        requires
            outbound.wf(),
            target_inbound.wf(),
        ensures
            outbound.wf() && target_inbound.wf(),
            r is AllConfirmed <==> outbound.latest_received_nonce
                == outbound.latest_generated_nonce,
            !(r is AllConfirmed) ==> (r is WaitForDelivery <==> outbound.latest_received_nonce
                == target_inbound.last_delivered_nonce),
            r matches ConfirmAction::Confirm { begin, end, at_block: b } ==> begin
                == target_inbound.relayer_range_front && end == target_inbound.relayer_range_back
                && b == at_block,
    {
        if outbound.latest_received_nonce == outbound.latest_generated_nonce {
            return ConfirmAction::AllConfirmed;
        }
        if outbound.latest_received_nonce == target_inbound.last_delivered_nonce {
            return ConfirmAction::WaitForDelivery;
        }
        ConfirmAction::Confirm {
            begin: target_inbound.relayer_range_front,
            end: target_inbound.relayer_range_back,
            at_block,
        }
    }
}

/// The newest target block the source chain can verify, gated on state:
/// the light client's block is usable only while the execution state root
/// it stores matches the beacon block's state root byte for byte;
/// otherwise the execution-layer relay has to catch up first.
pub fn verifiable_execution_block(
    light_client_state_root: &Vec<u8>,
    beacon_state_root: &Vec<u8>,
    block_number: u64,
) -> (r: Option<u64>)
    ensures
        r is Some <==> light_client_state_root@ == beacon_state_root@,
        r matches Some(b) ==> b == block_number,
{
    if bytes_eq(light_client_state_root, beacon_state_root) {
        Some(block_number)
    } else {
        None
    }
}

/// Whether a submitted transaction has to be polled for confirmations at
/// all: a zero confirmation depth returns at once.
pub fn confirmation_wait_needed(confirmations: usize) -> (r: bool)
    ensures
        r <==> confirmations > 0,
{
    confirmations > 0
}

} // verus!
