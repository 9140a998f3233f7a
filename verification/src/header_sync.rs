//! Periodic light-client maintenance: sync-committee rotation.
//!
//! The engine keeps the target chain's beacon light client supplied with
//! the next period's committee commitment.  Each iteration reads the
//! currently finalized header, derives its period, and — only if the light
//! client still lacks the next period's committee root — assembles and
//! submits an update.

use vstd::prelude::*;

use crate::bytes::{all_zero, spec_all_zero};
use crate::error::RelayError;

verus! {

/// Slots per epoch of the beacon chain.
pub const SLOTS_PER_EPOCH: u64 = 32;

/// Epochs per sync-committee period.
pub const EPOCHS_PER_PERIOD: u64 = 256;

/// The sync-committee period a slot belongs to.
pub open spec fn spec_period_of(slot: u64) -> int {
    slot as int / (SLOTS_PER_EPOCH as int) / (EPOCHS_PER_PERIOD as int)
}

/// Derive the sync-committee period of a slot.
pub fn period_of(slot: u64) -> (r: u64)
    ensures
        r == spec_period_of(slot),
        r <= slot,
{
    slot / SLOTS_PER_EPOCH / EPOCHS_PER_PERIOD
}

/// Dividing by the epoch and period sizes in turn is dividing by the slots
/// per period.
pub proof fn lemma_period_of_flat(slot: u64)
    ensures
        spec_period_of(slot) == slot as int / (SLOTS_PER_EPOCH as int * EPOCHS_PER_PERIOD as int),
{
    vstd::arithmetic::div_mod::lemma_div_denominator(
        slot as int,
        SLOTS_PER_EPOCH as int,
        EPOCHS_PER_PERIOD as int,
    );
}

/// What a header-sync iteration decided.
pub enum HeaderSyncAction {
    /// The next period's committee root is already on chain.
    UpToDate,
    /// Fetch the committee update of `period` (the finalized header's
    /// period) and import it for `period + 1`.
    Relay { period: u64 },
}

/// A sync committee as served by the beacon API.
#[derive(Clone, Debug, PartialEq, Eq)]
pub struct SyncCommittee {
    /// The member public keys, 48 bytes each.
    pub pubkeys: Vec<Vec<u8>>,
    /// The aggregate public key.
    pub aggregate_pubkey: Vec<u8>,
}

/// A committee-update proof from the beacon API: a bounded-size Merkle
/// witness for the next committee.
pub enum Proof {
    /// A single-leaf branch.
    SingleProof { gindex: u64, leaf: Vec<u8>, witnesses: Vec<Vec<u8>> },
    /// A multi-leaf tree-offset proof; not accepted by the light client.
    TreeOffsetProof { offsets: Vec<u64>, leaves: Vec<Vec<u8>> },
}

/// The update transaction's payload.
#[derive(Clone, Debug, PartialEq, Eq)]
pub struct SyncCommitteePeriodUpdate {
    /// The next period's committee.
    pub sync_committee: SyncCommittee,
    /// Merkle branch witnessing it under the finalized state root.
    pub next_sync_committee_branch: Vec<Vec<u8>>,
}

/// One periodic engine instance.
pub struct SyncCommitteeUpdate {}

impl SyncCommitteeUpdate {
    /// Decide whether the light client needs the next period's committee.
    ///
    /// `finalized_slot` is the light client's currently finalized slot and
    /// `next_committee_root` the root it stores for the next period — a
    /// zero root means none is stored yet.
    pub fn sync_committee_update(
        &self,
        finalized_slot: u64,
        next_committee_root: &Vec<u8>,
    ) -> (r: HeaderSyncAction)
        ensures
            r is Relay <==> spec_all_zero(next_committee_root@),
            r matches HeaderSyncAction::Relay { period } ==> period == spec_period_of(
                finalized_slot,
            ),
    {
        if all_zero(next_committee_root) {
            HeaderSyncAction::Relay { period: period_of(finalized_slot) }
        } else {
            HeaderSyncAction::UpToDate
        }
    }

    /// Assemble the update payload from what the beacon API served.
    ///
    /// `updates` is the API's answer for the requested period (possibly
    /// empty: an API gap, reported upward rather than retried with stale
    /// data) and `branch` the next-sync-committee branch at the finalized
    /// slot, which the light client only accepts as a single-leaf proof.
    pub fn get_sync_committee_update_parameter(
        &self,
        updates: Vec<SyncCommittee>,
        branch: Proof,
    ) -> (r: Result<SyncCommitteePeriodUpdate, RelayError>)
        ensures
            r is Ok <==> updates@.len() > 0 && branch is SingleProof,
            updates@.len() == 0 ==> r == Result::<SyncCommitteePeriodUpdate, RelayError>::Err(
                RelayError::UpdateUnavailable,
            ),
            r matches Ok(u) ==> u.sync_committee == updates@[0] && (branch matches
            Proof::SingleProof { witnesses, .. } && u.next_sync_committee_branch == witnesses),
    {
        let mut updates = updates;
        if updates.len() == 0 {
            return Err(RelayError::UpdateUnavailable);
        }
        let witnesses = match branch {
            Proof::SingleProof { witnesses, .. } => witnesses,
            _ => {
                return Err(RelayError::UnsupportedProof);
            },
        };
        let first = updates.remove(0);
        Ok(SyncCommitteePeriodUpdate { sync_committee: first, next_sync_committee_branch: witnesses })
    }
}

} // verus!
