//! Persistent scan positions.
//!
//! A cursor records the last fully processed block of a long-running scan.
//! It only ever moves forward: `finish` with an older block is a no-op, so
//! a restart from a committed cursor can only re-scan, never lose work.
//! Persisting the value between runs is the caller's concern.

use vstd::prelude::*;

verus! {

/// Monotonic block-position store of one scan task.
#[derive(Clone, Copy, Debug, PartialEq, Eq, Structural)]
pub struct ScanCursor {
    /// Last fully processed block.
    pub current: u64,
    /// Whether the task is active; an inactive task no-ops (cooperative
    /// pause).
    pub running: bool,
}

impl ScanCursor {
    /// A fresh cursor, starting from the given block (0 for a new task).
    pub fn new(start: u64) -> (r: Self)
        ensures
            r.current == start,
            r.running,
    {
        ScanCursor { current: start, running: true }
    }

    /// The last fully processed block.
    pub fn current(&self) -> (r: u64)
        ensures
            r == self.current,
    {
        self.current
    }

    /// Whether the task is active.
    pub fn is_running(&self) -> (r: bool)
        ensures
            r == self.running,
    {
        self.running
    }

    /// Commit `block` as fully processed.  The cursor never regresses: a
    /// block older than the current position leaves it unchanged.
    pub fn finish(&mut self, block: u64)
        ensures
            final(self).current == if block >= old(self).current {
                block
            } else {
                old(self).current
            },
            final(self).current >= old(self).current,
            final(self).running == old(self).running,
    {
        if block >= self.current {
            self.current = block;
        }
    }
}

/// Tracks the next source-chain block a subscription has to fetch.
pub struct DarwiniaBlockTracker {
    /// The next block to hand out.
    pub next_block: u32,
}

impl DarwiniaBlockTracker {
    /// Start scanning from the given block.
    pub fn new(scan_from: u32) -> (r: Self)
        ensures
            r.next_block == scan_from,
    {
        DarwiniaBlockTracker { next_block: scan_from }
    }

    /// Which block to fetch next, given the chain's finalized block
    /// number: none while finality has not reached the scan position.
    pub fn get_next_block(&self, finalized_block_number: u32) -> (r: Option<u32>)
        ensures
            r is Some <==> self.next_block <= finalized_block_number,
            r matches Some(b) ==> b == self.next_block,
    {
        if self.next_block > finalized_block_number {
            None
        } else {
            Some(self.next_block)
        }
    }

    /// Move past a block whose header was fetched and handled.
    pub fn advance(&mut self)
        requires
            old(self).next_block < u32::MAX,
        ensures
            final(self).next_block == old(self).next_block + 1,
    {
        self.next_block = self.next_block + 1;
    }
}

} // verus!
