//! The affirm service: proposing Ethereum header parcels to the relay
//! pallet.
//!
//! The handler keeps two persisted marks — the newest block already
//! relayed and the newest block requested as a target — and affirms a
//! target block only when it is genuinely new, not already pending in the
//! relay queue, not already played in the relayer game, and backed by a
//! parcel whose parent MMR root is filled in.

use vstd::prelude::*;

use crate::bytes::{all_zero, spec_all_zero};
use crate::error::BizError;

verus! {

/// Why a target block was not affirmed.
#[derive(Clone, Copy, Debug, PartialEq, Eq, Structural)]
pub enum AffirmDecision {
    /// A pending relay-header parcel already covers the target.
    InPending,
    /// The target block is already played in the relayer game.
    InGame,
    /// The shadow service served an empty parcel (zero parent MMR root).
    EmptyParcel,
    /// Affirm the target block.
    Affirm,
}

impl AffirmDecision {
    /// The business error a skipped affirmation surfaces in the logs;
    /// none when the block is affirmed.
    pub fn rejection(&self, target: u64) -> (r: Option<BizError>)
        ensures
            r == match *self {
                AffirmDecision::InPending => Some(BizError::AffirmingBlockInPending(target)),
                AffirmDecision::InGame => Some(BizError::AffirmingBlockInGame(target)),
                AffirmDecision::EmptyParcel => Some(BizError::ParcelFromShadowIsEmpty(target)),
                AffirmDecision::Affirm => None::<BizError>,
            },
    {
        match self {
            AffirmDecision::InPending => Some(BizError::AffirmingBlockInPending(target)),
            AffirmDecision::InGame => Some(BizError::AffirmingBlockInGame(target)),
            AffirmDecision::EmptyParcel => Some(BizError::ParcelFromShadowIsEmpty(target)),
            AffirmDecision::Affirm => None,
        }
    }
}

/// Persisted state of the affirm handler.
#[derive(Clone, Copy, Debug, PartialEq, Eq, Structural)]
pub struct AffirmHandler {
    /// Newest source block known to be relayed (confirmed on chain).
    pub relayed: u64,
    /// Newest block requested for affirmation.
    pub target: u64,
}

impl AffirmHandler {
    /// Restore the handler from its persisted marks (0 when unset).
    pub fn new(relayed: u64, target: u64) -> (r: Self)
        ensures
            r.relayed == relayed,
            r.target == target,
    {
        AffirmHandler { relayed, target }
    }

    /// Request a block for affirmation.  Only a newer block moves the
    /// target.
    pub fn update_target(&mut self, block_number: u64)
        ensures
            final(self).target == if block_number > old(self).target {
                block_number
            } else {
                old(self).target
            },
            final(self).relayed == old(self).relayed,
    {
        if block_number > self.target {
            self.target = block_number;
        }
    }

    /// One affirm iteration: refresh the relayed mark from the chain's
    /// last confirmed block, then decide whether the target needs
    /// affirming.  Returns the block to affirm, if any.
    pub fn affirm(&mut self, last_confirmed: u64) -> (r: Option<u64>)
        ensures
            final(self).relayed == if last_confirmed > old(self).relayed {
                last_confirmed
            } else {
                old(self).relayed
            },
            final(self).target == old(self).target,
            r is Some <==> old(self).target > final(self).relayed,
            r matches Some(b) ==> b == old(self).target,
    {
        if last_confirmed > self.relayed {
            self.relayed = last_confirmed;
        }
        if self.target > self.relayed {
            Some(self.target)
        } else {
            None
        }
    }
}

/// Check a target block against the chain before affirming it.
///
/// `pending_blocks` holds the block numbers of the pending relay-header
/// parcels, `game_blocks` every block number currently affirmed in the
/// relayer game, and `parcel_parent_mmr_root` the parent MMR root of the
/// parcel the shadow service returned for the target.
pub fn do_affirm(
    target: u64,
    pending_blocks: &Vec<u64>,
    game_blocks: &Vec<u64>,
    parcel_parent_mmr_root: &Vec<u8>,
) -> (r: AffirmDecision)
    ensures
        r is InPending <==> exists|i: int|
            0 <= i < pending_blocks@.len() && pending_blocks@[i] >= target,
        !(r is InPending) ==> (r is InGame <==> game_blocks@.contains(target)),
        !(r is InPending) && !(r is InGame) ==> (r is EmptyParcel <==> spec_all_zero(
            parcel_parent_mmr_root@,
        )),
        r is Affirm <==> !(exists|i: int|
            0 <= i < pending_blocks@.len() && pending_blocks@[i] >= target) && !game_blocks@
            .contains(target) && !spec_all_zero(parcel_parent_mmr_root@),
{
    let pending_count = pending_blocks.len();
    let mut i: usize = 0;
    while i < pending_count
        invariant
            i <= pending_count,
            pending_count == pending_blocks@.len(),
            forall|j: int| 0 <= j < i ==> pending_blocks@[j] < target,
        decreases pending_count - i,
    {
        if pending_blocks[i] >= target {
            return AffirmDecision::InPending;
        }
        i = i + 1;
    }
    let game_count = game_blocks.len();
    let mut g: usize = 0;
    while g < game_count
        invariant
            g <= game_count,
            game_count == game_blocks@.len(),
            forall|j: int| 0 <= j < g ==> game_blocks@[j] != target,
            forall|j: int| 0 <= j < pending_blocks@.len() ==> pending_blocks@[j] < target,
        decreases game_count - g,
    {
        if game_blocks[g] == target {
            return AffirmDecision::InGame;
        }
        g = g + 1;
    }
    if all_zero(parcel_parent_mmr_root) {
        return AffirmDecision::EmptyParcel;
    }
    AffirmDecision::Affirm
}

} // verus!
