//! The delivery candidate walk.
//!
//! Given the window of nonces that a delivery proof covers, the walk decides
//! how many messages the submitted transaction declares.  Nonces at or below
//! the target's `last_delivered_nonce` are already delivered and cost-free;
//! every later nonce is a candidate and the relay strategy is consulted for
//! it.  The walk is contiguous: it stops at the first rejected candidate, at
//! the per-call cap on newly relayed messages, or where the distance from
//! `last_confirmed_nonce` would exceed the unrewarded-relayer capacity —
//! whichever comes first.  Nonces are never skipped.

use vstd::prelude::*;

use crate::error::RelayError;

verus! {

/// Economic decision interface: given a pending message key, decide whether
/// conditions justify relaying it now.  Implemented by collaborators (for
/// example a fee-market client); the walk consults it lazily, in nonce order.
pub trait RelayStrategy {
    /// Decide whether the message with this encoded key should be relayed.
    fn decide(&mut self, encoded_key: &Vec<u8>) -> Result<bool, RelayError>;
}

/// Why the walk stopped.
#[derive(Clone, Copy, Debug, PartialEq, Eq, Structural)]
pub enum WalkStop {
    /// Every nonce of the window was taken.
    EndOfWindow,
    /// The next nonce would exceed the unrewarded-relayer capacity.
    CapacityLimit,
    /// The strategy rejected the next candidate.
    Rejected,
    /// The cap on newly relayed messages per call was reached.
    NewMessagesCap,
}

/// Result of a delivery walk over one window.
#[derive(Clone, Copy, Debug, PartialEq, Eq, Structural)]
pub struct DeliveryPlan {
    /// How many messages (from the window start) the submission declares.
    pub count: u64,
    /// How many of those were already delivered.
    pub delivered: u64,
    /// Why the walk stopped.
    pub stop: WalkStop,
}

/// The walk outcome — included-message count and stop reason — as a function
/// of the window, the lane state and the strategy's answers.  `ds` holds the
/// strategy's answer for each consulted candidate, in nonce order; already
/// delivered nonces consume no answer.
pub open spec fn spec_walk(
    nonce: int,
    end: int,
    last_delivered: int,
    cap_nonce: int,
    new_taken: int,
    max_new: int,
    ds: Seq<bool>,
) -> (int, WalkStop)
    decreases end + 1 - nonce,
{
    if nonce > end {
        (0, WalkStop::EndOfWindow)
    } else if nonce > cap_nonce {
        (0, WalkStop::CapacityLimit)
    } else if nonce <= last_delivered {
        let rest = spec_walk(nonce + 1, end, last_delivered, cap_nonce, new_taken, max_new, ds);
        (1 + rest.0, rest.1)
    } else if new_taken >= max_new {
        (0, WalkStop::NewMessagesCap)
    } else if ds.len() == 0 || !ds[0] {
        (0, WalkStop::Rejected)
    } else {
        let rest = spec_walk(
            nonce + 1,
            end,
            last_delivered,
            cap_nonce,
            new_taken + 1,
            max_new,
            ds.drop_first(),
        );
        (1 + rest.0, rest.1)
    }
}

/// How many nonces of `[begin, end]` are already delivered and within
/// capacity: the size of the prefix bounded by `end`, `cap_nonce` and
/// `last_delivered`.
pub open spec fn spec_delivered_count(
    begin: int,
    end: int,
    last_delivered: int,
    cap_nonce: int,
) -> int {
    let top = vstd::math::min(vstd::math::min(end, cap_nonce), last_delivered);
    if top >= begin {
        top - begin + 1
    } else {
        0
    }
}

/// The walk takes at most the whole window, always takes the delivered
/// prefix, and takes at most `max_new - new_taken` new messages on top.
pub proof fn lemma_walk_bounds(
    nonce: int,
    end: int,
    last_delivered: int,
    cap_nonce: int,
    new_taken: int,
    max_new: int,
    ds: Seq<bool>,
)
    requires
        0 <= new_taken <= max_new,
    ensures
        ({
            let c = spec_walk(nonce, end, last_delivered, cap_nonce, new_taken, max_new, ds).0;
            let d = spec_delivered_count(nonce, end, last_delivered, cap_nonce);
            &&& d <= c
            &&& c <= if end + 1 - nonce >= 0 {
                end + 1 - nonce
            } else {
                0
            }
            &&& c - d <= max_new - new_taken
        }),
    decreases end + 1 - nonce,
{
    if nonce > end || nonce > cap_nonce {
    } else if nonce <= last_delivered {
        lemma_walk_bounds(nonce + 1, end, last_delivered, cap_nonce, new_taken, max_new, ds);
    } else if new_taken >= max_new {
    } else if ds.len() == 0 || !ds[0] {
    } else {
        lemma_walk_bounds(
            nonce + 1,
            end,
            last_delivered,
            cap_nonce,
            new_taken + 1,
            max_new,
            ds.drop_first(),
        );
    }
}

/// Every nonce the walk includes lies within the window and within the
/// unrewarded-relayer capacity: delivery never runs further than
/// `confirm_limit` nonces past the last confirmed one.
pub proof fn lemma_walk_within_capacity(
    nonce: int,
    end: int,
    last_delivered: int,
    cap_nonce: int,
    new_taken: int,
    max_new: int,
    ds: Seq<bool>,
)
    ensures
        ({
            let c = spec_walk(nonce, end, last_delivered, cap_nonce, new_taken, max_new, ds).0;
            c > 0 ==> nonce + c - 1 <= end && nonce + c - 1 <= cap_nonce
        }),
    decreases end + 1 - nonce,
{
    if nonce > end || nonce > cap_nonce {
    } else if nonce <= last_delivered {
        lemma_walk_within_capacity(
            nonce + 1,
            end,
            last_delivered,
            cap_nonce,
            new_taken,
            max_new,
            ds,
        );
    } else if new_taken >= max_new {
    } else if ds.len() == 0 || !ds[0] {
    } else {
        lemma_walk_within_capacity(
            nonce + 1,
            end,
            last_delivered,
            cap_nonce,
            new_taken + 1,
            max_new,
            ds.drop_first(),
        );
    }
}

/// The capacity bound only matters up to the end of the window: two caps
/// that both lie at or beyond `end` give the same walk.
pub proof fn lemma_walk_cap_clamp(
    nonce: int,
    end: int,
    last_delivered: int,
    cap1: int,
    cap2: int,
    new_taken: int,
    max_new: int,
    ds: Seq<bool>,
)
    requires
        cap1 >= end,
        cap2 >= end,
    ensures
        spec_walk(nonce, end, last_delivered, cap1, new_taken, max_new, ds) == spec_walk(
            nonce,
            end,
            last_delivered,
            cap2,
            new_taken,
            max_new,
            ds,
        ),
    decreases end + 1 - nonce,
{
    if nonce > end {
    } else if nonce <= last_delivered {
        lemma_walk_cap_clamp(nonce + 1, end, last_delivered, cap1, cap2, new_taken, max_new, ds);
    } else if new_taken >= max_new {
    } else if ds.len() == 0 || !ds[0] {
    } else {
        lemma_walk_cap_clamp(
            nonce + 1,
            end,
            last_delivered,
            cap1,
            cap2,
            new_taken + 1,
            max_new,
            ds.drop_first(),
        );
    }
}

/// The candidate walk is prefix-closed: once some consulted candidate is
/// rejected, whatever the strategy would have answered for later nonces is
/// irrelevant — the walk over `ds + more` equals the walk over `ds` alone,
/// so no nonce past the rejected one is ever included in the submission.
pub proof fn lemma_walk_prefix_closed(
    nonce: int,
    end: int,
    last_delivered: int,
    cap_nonce: int,
    new_taken: int,
    max_new: int,
    ds: Seq<bool>,
    more: Seq<bool>,
)
    requires
        exists|j: int| 0 <= j < ds.len() && !ds[j],
    ensures
        spec_walk(nonce, end, last_delivered, cap_nonce, new_taken, max_new, ds + more)
            == spec_walk(nonce, end, last_delivered, cap_nonce, new_taken, max_new, ds),
    decreases end + 1 - nonce,
{
    let j = choose|j: int| 0 <= j < ds.len() && !ds[j];
    assert(ds.len() > 0);
    assert((ds + more).len() > 0);
    assert((ds + more)[0] == ds[0]);
    if nonce > end || nonce > cap_nonce {
    } else if nonce <= last_delivered {
        lemma_walk_prefix_closed(
            nonce + 1,
            end,
            last_delivered,
            cap_nonce,
            new_taken,
            max_new,
            ds,
            more,
        );
    } else if new_taken >= max_new {
    } else if !ds[0] {
    } else {
        assert(0 <= j - 1 < ds.drop_first().len() && !ds.drop_first()[j - 1]);
        assert((ds + more).drop_first() =~= ds.drop_first() + more);
        lemma_walk_prefix_closed(
            nonce + 1,
            end,
            last_delivered,
            cap_nonce,
            new_taken + 1,
            max_new,
            ds.drop_first(),
            more,
        );
    }
}

/// The recursive walk.  `offset` is the index into `keys` of the key for
/// `nonce`.  Returns the included count from `nonce` on, the strategy's
/// answers in consultation order, and the stop reason.
fn walk_rec<S: RelayStrategy>(
    nonce: u64,
    end: u64,
    last_delivered: u64,
    cap_nonce: u64,
    new_taken: u64,
    max_new: u64,
    keys: &Vec<Vec<u8>>,
    offset: usize,
    strategy: &mut S,
) -> (r: Result<(u64, Vec<bool>, WalkStop), RelayError>)
    requires
        1 <= nonce <= end as int + 1,
        end < u64::MAX,
        nonce <= end ==> offset + (end - nonce) < keys@.len(),
    ensures
        r matches Ok((c, ds, stop)) ==> {
            let s = spec_walk(
                nonce as int,
                end as int,
                last_delivered as int,
                cap_nonce as int,
                new_taken as int,
                max_new as int,
                ds@,
            );
            &&& c == s.0
            &&& stop == s.1
            &&& c <= end as int + 1 - nonce as int
            &&& (stop is Rejected ==> ds@.len() > 0 && ds@[ds@.len() - 1] == false)
            &&& (forall|i: int|
                0 <= i < ds@.len() && !ds@[i] ==> i == ds@.len() - 1 && stop is Rejected)
        },
        // The strategy is the only source of failure, and it is consulted
        // only for a candidate inside the window and the capacity.
        nonce as int > cap_nonce as int ==> r is Ok,
        vstd::math::min(end as int, cap_nonce as int) <= last_delivered ==> r is Ok,
    decreases end as int + 1 - nonce as int,
{
    if nonce > end {
        return Ok((0, Vec::new(), WalkStop::EndOfWindow));
    }
    if nonce > cap_nonce {
        return Ok((0, Vec::new(), WalkStop::CapacityLimit));
    }
    let key_count = keys.len();
    assert(offset < key_count);
    if nonce <= last_delivered {
        let (c, ds, stop) = walk_rec(
            nonce + 1,
            end,
            last_delivered,
            cap_nonce,
            new_taken,
            max_new,
            keys,
            offset + 1,
            strategy,
        )?;
        return Ok((c + 1, ds, stop));
    }
    if new_taken >= max_new {
        return Ok((0, Vec::new(), WalkStop::NewMessagesCap));
    }
    let accept = strategy.decide(&keys[offset])?;
    if !accept {
        let mut ds: Vec<bool> = Vec::new();
        ds.push(false);
        return Ok((0, ds, WalkStop::Rejected));
    }
    let (c, ds_rest, stop) = walk_rec(
        nonce + 1,
        end,
        last_delivered,
        cap_nonce,
        new_taken + 1,
        max_new,
        keys,
        offset + 1,
        strategy,
    )?;
    let ghost rest_view = ds_rest@;
    let mut ds = ds_rest;
    ds.insert(0, true);
    proof {
        assert(ds@.drop_first() =~= rest_view);
    }
    Ok((c + 1, ds, stop))
}

/// Walk the delivery window `[begin, end]` and compute the submission plan.
///
/// `keys` holds the encoded key of each message in the window, in nonce
/// order.  The returned decisions record the strategy's answer for each
/// consulted candidate; the plan is the exact walk outcome over them, the
/// delivered count is the size of the already-delivered prefix, and at most
/// `max_new` new messages are taken.  An error of the strategy aborts the
/// walk and is handed to the supervisor.
pub fn run_delivery_walk<S: RelayStrategy>(
    begin: u64,
    end: u64,
    keys: &Vec<Vec<u8>>,
    last_delivered: u64,
    last_confirmed: u64,
    confirm_limit: u64,
    max_new: u64,
    strategy: &mut S,
) -> (r: Result<(DeliveryPlan, Vec<bool>), RelayError>)
    requires
        1 <= begin <= end < u64::MAX,
        keys@.len() == end - begin + 1,
        max_new >= 1,
    ensures
        r matches Ok((plan, ds)) ==> {
            let cap = last_confirmed + confirm_limit;
            let s = spec_walk(
                begin as int,
                end as int,
                last_delivered as int,
                cap,
                0,
                max_new as int,
                ds@,
            );
            &&& plan.count == s.0
            &&& plan.stop == s.1
            &&& plan.delivered == spec_delivered_count(
                begin as int,
                end as int,
                last_delivered as int,
                cap,
            )
            &&& plan.delivered <= plan.count <= end - begin + 1
            &&& plan.count - plan.delivered <= max_new
            &&& (plan.stop is Rejected ==> ds@.len() > 0 && ds@[ds@.len() - 1] == false)
            &&& (forall|i: int|
                0 <= i < ds@.len() && !ds@[i] ==> i == ds@.len() - 1 && plan.stop is Rejected)
        },
        // Success is owed wherever no candidate can be consulted: the
        // strategy is the walk's only source of failure.
        last_confirmed + confirm_limit < begin ==> r is Ok,
        vstd::math::min(end as int, last_confirmed + confirm_limit) <= last_delivered ==> r is Ok,
{
    let cap_nonce: u64 = if confirm_limit > u64::MAX - last_confirmed {
        u64::MAX
    } else {
        last_confirmed + confirm_limit
    };
    let (count, ds, stop) = walk_rec(
        begin,
        end,
        last_delivered,
        cap_nonce,
        0,
        max_new,
        keys,
        0,
        strategy,
    )?;
    proof {
        let cap = last_confirmed as int + confirm_limit as int;
        if cap > u64::MAX {
            lemma_walk_cap_clamp(
                begin as int,
                end as int,
                last_delivered as int,
                cap_nonce as int,
                cap,
                0,
                max_new as int,
                ds@,
            );
        }
        lemma_walk_bounds(
            begin as int,
            end as int,
            last_delivered as int,
            cap,
            0,
            max_new as int,
            ds@,
        );
    }
    // The delivered prefix runs from `begin` to whichever of `end`, the
    // capacity bound and `last_delivered` comes first.
    let mut top: u64 = if cap_nonce < end {
        cap_nonce
    } else {
        end
    };
    if last_delivered < top {
        top = last_delivered;
    }
    let delivered: u64 = if top >= begin {
        top - begin + 1
    } else {
        0
    };
    proof {
        let cap = last_confirmed as int + confirm_limit as int;
        if cap > u64::MAX {
            assert(vstd::math::min(end as int, cap) == vstd::math::min(
                end as int,
                cap_nonce as int,
            ));
        }
    }
    Ok((DeliveryPlan { count, delivered, stop }, ds))
}

} // verus!
