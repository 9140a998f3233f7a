//! The threshold-ECDSA attestation scanner.
//!
//! Four scan modes share one algorithm: poll an indexer for the next
//! unseen event at or after the cursor, resolve it — already satisfied on
//! chain, not an authority, or sign and submit — and commit the cursor to
//! the event's block only once the event is fully handled.  Because the
//! already-satisfied check is idempotent-detecting, re-scanning from a
//! committed cursor after a restart never signs the same event twice.

use vstd::prelude::*;

use crate::crypto::{ecdsa_sign, ecdsa_sign_of, evm_address, secret_key_ok, spec_evm_address};
use crate::error::RelayError;
use crate::tracker::ScanCursor;

verus! {

/// The four scan modes.
#[derive(Clone, Copy, Debug, PartialEq, Eq, Structural)]
pub enum EcdsaScanType {
    /// New message-root commitments collecting signatures.
    CollectingMessage,
    /// Message-root commitments whose signature round closed.
    CollectedMessage,
    /// Authority-set changes collecting signatures.
    CollectingAuthority,
    /// Authority-set changes whose signature round closed.
    CollectedAuthority,
}

impl EcdsaScanType {
    /// The event name this mode queries the indexer for.
    pub fn name(&self) -> (r: &str)
        ensures
            r@ == match *self {
                EcdsaScanType::CollectingMessage => "collectingMessages"@,
                EcdsaScanType::CollectedMessage => "collectedMessages"@,
                EcdsaScanType::CollectingAuthority => "collectingAuthorities"@,
                EcdsaScanType::CollectedAuthority => "collectedAuthorities"@,
            },
    {
        match self {
            EcdsaScanType::CollectingMessage => "collectingMessages",
            EcdsaScanType::CollectedMessage => "collectedMessages",
            EcdsaScanType::CollectingAuthority => "collectingAuthorities",
            EcdsaScanType::CollectedAuthority => "collectedAuthorities",
        }
    }
}

/// A pending cross-chain commitment awaiting signature.
#[derive(Clone, Debug, PartialEq, Eq)]
pub struct EcdsaEvent {
    /// Block the commitment was made at.
    pub block_number: u32,
    /// The 32-byte commitment (for example a message root) to sign.
    pub message: Vec<u8>,
    /// Version of the authority set the commitment addresses.
    pub authority_set_version: u32,
}

/// How one scan iteration resolved.
pub enum EcdsaOutcome {
    /// The task is paused; nothing was read or written.
    Inactive,
    /// No unseen event at or after the cursor; the cursor stays put.
    NoEvent,
    /// The event's effect is already visible on chain; advance past it.
    AlreadyHandled { block: u32 },
    /// The local signer is not a current authority for the event's block;
    /// nothing is actionable, still advance past it.
    NotAuthority { block: u32 },
    /// The event was signed; submit `(address, signature)` and advance.
    Signed { block: u32, address: Vec<u8>, signature: Vec<u8> },
}

impl EcdsaOutcome {
    /// The block the cursor may be committed to: the event's block once it
    /// is fully handled, none otherwise.
    pub fn finished_block(&self) -> (r: Option<u32>)
        ensures
            r == spec_finished_block(*self),
    {
        match self {
            EcdsaOutcome::Inactive => None,
            EcdsaOutcome::NoEvent => None,
            EcdsaOutcome::AlreadyHandled { block } => Some(*block),
            EcdsaOutcome::NotAuthority { block } => Some(*block),
            EcdsaOutcome::Signed { block, .. } => Some(*block),
        }
    }
}

/// The block an outcome commits the cursor to.
pub open spec fn spec_finished_block(o: EcdsaOutcome) -> Option<u32> {
    match o {
        EcdsaOutcome::Inactive => None,
        EcdsaOutcome::NoEvent => None,
        EcdsaOutcome::AlreadyHandled { block } => Some(block),
        EcdsaOutcome::NotAuthority { block } => Some(block),
        EcdsaOutcome::Signed { block, .. } => Some(block),
    }
}

/// When an event calls for a signature: there is an unseen event, its
/// effect is not yet visible on chain, and the local signer is a current
/// authority as of its block.
pub open spec fn spec_should_sign(
    has_event: bool,
    event_block: u32,
    already_relayed: u32,
    is_authority: bool,
) -> bool {
    has_event && already_relayed < event_block && is_authority
}

/// An event whose effect is already committed on chain is never signed
/// again, whoever the signer is: restarting from a committed cursor and
/// re-finding the event cannot double-sign it.
pub proof fn lemma_no_double_signing(event_block: u32, already_relayed: u32, is_authority: bool)
    requires
        already_relayed >= event_block,
    ensures
        !spec_should_sign(true, event_block, already_relayed, is_authority),
{
}

/// Resolves `CollectingMessage`-style events: sign the commitment with the
/// local ECDSA key if the chain still lacks it and we are an authority.
pub struct CollectingNewMessageRootSignaturesRunner {
    /// The local signer's 32-byte secret key.
    pub signer_key: Vec<u8>,
}

impl CollectingNewMessageRootSignaturesRunner {
    /// Well-formed runner: the key has secret-key shape.
    pub open spec fn wf(self) -> bool {
        self.signer_key@.len() == 32
    }

    /// Wrap a signer key.
    pub fn new(signer_key: Vec<u8>) -> (r: Self)
        ensures
            r.signer_key == signer_key,
    {
        CollectingNewMessageRootSignaturesRunner { signer_key }
    }

    /// Resolve one polled event.
    ///
    /// `latest_relayed_block` is the newest block whose message root the
    /// counterpart chain already holds; `is_authority` whether the local
    /// signer is in the authority set as of the event's block.  The
    /// outcome tells the caller what to submit and which block the cursor
    /// may advance to.  The call fails exactly when a signature is owed —
    /// an unseen, unsatisfied event with the local signer an authority —
    /// and the signer key is not a valid scalar; every other input is
    /// resolved without error.
    pub fn start(
        &self,
        event: Option<&EcdsaEvent>,
        latest_relayed_block: u32,
        is_authority: bool,
    ) -> (r: Result<EcdsaOutcome, RelayError>)
        requires
            self.wf(),
            event matches Some(e) ==> e.message@.len() == 32,
        ensures
            r matches Ok(o) ==> {
                &&& (o is NoEvent <==> event is None)
                &&& !(o is Inactive)
                &&& (event matches Some(e) ==> (o is AlreadyHandled <==> latest_relayed_block
                    >= e.block_number))
                &&& (event matches Some(e) ==> (o is NotAuthority <==> latest_relayed_block
                    < e.block_number && !is_authority))
                &&& (event matches Some(e) ==> (o is Signed <==> spec_should_sign(
                    true,
                    e.block_number,
                    latest_relayed_block,
                    is_authority,
                )))
                &&& (event matches Some(e) ==> (o matches EcdsaOutcome::AlreadyHandled { block }
                    ==> block == e.block_number))
                &&& (event matches Some(e) ==> (o matches EcdsaOutcome::NotAuthority { block }
                    ==> block == e.block_number))
                &&& (event matches Some(e) ==> (o matches EcdsaOutcome::Signed {
                    block,
                    address,
                    signature,
                } ==> block == e.block_number && address@ == spec_evm_address(self.signer_key@)
                    && signature@ == ecdsa_sign_of(self.signer_key@, e.message@)))
            },
            r is Err <==> !secret_key_ok(self.signer_key@) && (event matches Some(e)
                && spec_should_sign(true, e.block_number, latest_relayed_block, is_authority)),
    {
        let e = match event {
            None => {
                return Ok(EcdsaOutcome::NoEvent);
            },
            Some(e) => e,
        };
        if latest_relayed_block >= e.block_number {
            // The signature round for this root is already closed on
            // chain: handled by inaction.
            return Ok(EcdsaOutcome::AlreadyHandled { block: e.block_number });
        }
        if !is_authority {
            // Not an authority account: nothing actionable, the event is
            // still handled.
            return Ok(EcdsaOutcome::NotAuthority { block: e.block_number });
        }
        let address = evm_address(&self.signer_key)?;
        let signature = ecdsa_sign(&self.signer_key, &e.message)?;
        Ok(EcdsaOutcome::Signed { block: e.block_number, address, signature })
    }
}

/// One scan task: a mode plus the shared per-iteration algorithm.
pub struct EcdsaScanner {
    /// Which events the scan loop asks the indexer for.
    pub scan_type: EcdsaScanType,
}

impl EcdsaScanner {
    /// One iteration of the scan loop: resolve the polled event and commit
    /// the cursor.
    ///
    /// The cursor never regresses, and it advances — to the event's block —
    /// only when the outcome says the event is fully handled: signed and
    /// submitted, already satisfied, or confirmed not actionable.  While
    /// the task runs, the outcome is tied to the event exactly as the
    /// runner resolves it, and the call fails only where the runner does:
    /// a signature owed under an invalid signer key.
    pub fn run(
        &self,
        runner: &CollectingNewMessageRootSignaturesRunner,
        cursor: &mut ScanCursor,
        event: Option<&EcdsaEvent>,
        latest_relayed_block: u32,
        is_authority: bool,
    ) -> (r: Result<EcdsaOutcome, RelayError>)
        requires
            runner.wf(),
            event matches Some(e) ==> e.message@.len() == 32,
        ensures
            final(cursor).current >= old(cursor).current,
            final(cursor).running == old(cursor).running,
            !old(cursor).running ==> (r matches Ok(o) && o is Inactive && *final(cursor) == *old(
                cursor,
            )),
            old(cursor).running ==> (r matches Ok(o) ==> {
                &&& !(o is Inactive)
                &&& (o is NoEvent <==> event is None)
                &&& (event matches Some(e) ==> (o is AlreadyHandled <==> latest_relayed_block
                    >= e.block_number))
                &&& (event matches Some(e) ==> (o is NotAuthority <==> latest_relayed_block
                    < e.block_number && !is_authority))
                &&& (event matches Some(e) ==> (o is Signed <==> spec_should_sign(
                    true,
                    e.block_number,
                    latest_relayed_block,
                    is_authority,
                )))
                &&& (event matches Some(e) ==> (o matches EcdsaOutcome::AlreadyHandled { block }
                    ==> block == e.block_number))
                &&& (event matches Some(e) ==> (o matches EcdsaOutcome::NotAuthority { block }
                    ==> block == e.block_number))
                &&& (event matches Some(e) ==> (o matches EcdsaOutcome::Signed {
                    block,
                    address,
                    signature,
                } ==> block == e.block_number && address@ == spec_evm_address(runner.signer_key@)
                    && signature@ == ecdsa_sign_of(runner.signer_key@, e.message@)))
            }),
            r matches Ok(o) ==> (old(cursor).running ==> match spec_finished_block(o) {
                Some(b) => final(cursor).current == if b as u64 >= old(cursor).current {
                    b as u64
                } else {
                    old(cursor).current
                },
                None => *final(cursor) == *old(cursor),
            }),
            r is Err <==> old(cursor).running && !secret_key_ok(runner.signer_key@) && (event
                matches Some(e) && spec_should_sign(
                true,
                e.block_number,
                latest_relayed_block,
                is_authority,
            )),
            r is Err ==> *final(cursor) == *old(cursor),
    {
        if !cursor.is_running() {
            return Ok(EcdsaOutcome::Inactive);
        }
        let outcome = runner.start(event, latest_relayed_block, is_authority)?;
        match outcome.finished_block() {
            Some(block) => cursor.finish(block as u64),
            None => (),
        }
        Ok(outcome)
    }
}

} // verus!
