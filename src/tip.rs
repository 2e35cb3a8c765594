//! The furthest block scanned for one key, and the cell that publishes it.

use vstd::prelude::*;

verus! {

/// A block, by hash and number. A new snapshot is made on each advance.
#[derive(Clone, Copy, Debug, PartialEq, Eq, Hash)]
pub struct TipSnapshot {
    pub block_hash: [u8; 32],
    pub block_number: u64,
}

/// Holder of the latest tip of one registration. It always holds a snapshot;
/// one published later never goes below the one it replaces.
#[derive(Debug)]
pub struct TipCell {
    current: TipSnapshot,
}

impl TipCell {
    /// The snapshot that readers see.
    pub closed spec fn tip(&self) -> TipSnapshot {
        self.current
    }

    /// A cell seeded with `initial`.
    pub fn create(initial: TipSnapshot) -> (r: TipCell)
        ensures
            r.tip() == initial,
    {
        TipCell { current: initial }
    }

    /// The most recently published snapshot, or the initial one.
    pub fn read(&self) -> (r: TipSnapshot)
        ensures
            r == self.tip(),
    {
        self.current
    }

    /// Replaces the visible snapshot by `new` as a whole, unless `new` lies
    /// below it; says whether it was replaced.
    pub fn publish(&mut self, new: TipSnapshot) -> (r: bool)
        ensures
            r == (new.block_number >= old(self).tip().block_number),
            final(self).tip() == (if r { new } else { old(self).tip() }),
    {
        if new.block_number >= self.current.block_number {
            self.current = new;
            true
        } else {
            false
        }
    }
}

} // verus!
