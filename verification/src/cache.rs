//! A small bounded memoization layer over the column sampler.
//!
//! The cache never changes an answer: every stored entry equals what the
//! world's column table holds for that key, so a lookup through the cache
//! returns exactly the sampler's answer whatever was evicted or retained.
//! Absence of data is itself a cached answer.

use vstd::prelude::*;

verus! {

use crate::column::ColumnAttributes;
use crate::geom::Vec2;
use crate::world::{column_at, column_key, column_key_spec, WorldIndex};
use vstd::pervasive::VecAdditionalExecFns;

/// Number of slots; eviction is replace-on-collision by key modulo this.
pub const CACHE_SLOTS: u64 = 64;

/// What the world's column table holds under a packed key.
pub open spec fn column_at_key(w: WorldIndex, k: u64) -> Option<ColumnAttributes> {
    if w.columns@.contains_key(k) {
        Some(w.columns@[k])
    } else {
        None
    }
}

/// The bounded column cache.
pub struct ColumnCache {
    pub slots: Vec<Option<(u64, Option<ColumnAttributes>)>>,
}

impl ColumnCache {
    /// Every filled slot agrees with the world's column table.
    pub open spec fn wf(self, w: WorldIndex) -> bool {
        &&& self.slots@.len() == CACHE_SLOTS
        &&& forall|i: int|
            0 <= i < self.slots@.len() ==> match #[trigger] self.slots@[i] {
                Some(e) => e.1 == column_at_key(w, e.0),
                None => true,
            }
    }

    /// An empty cache, consistent with any world.
    pub fn new() -> (c: ColumnCache)
        ensures
            forall|w: WorldIndex| c.wf(w),
    {
        let mut slots: Vec<Option<(u64, Option<ColumnAttributes>)>> = Vec::new();
        let mut i: u64 = 0;
        while i < CACHE_SLOTS
            invariant
                i <= CACHE_SLOTS,
                slots@.len() == i,
                forall|j: int| 0 <= j < i ==> slots@[j] is None,
            decreases CACHE_SLOTS - i,
        {
            slots.push(None);
            i = i + 1;
        }
        ColumnCache { slots }
    }

    /// The sampler's answer for a column, memoized.  On a hit the stored
    /// clone is returned without recomputation; on a miss the world table is
    /// consulted and the answer stored, evicting whatever shared the slot.
    /// Either way the result is exactly `column_at(w, pos)`.
    pub fn get(&mut self, w: &WorldIndex, pos: Vec2) -> (r: Option<ColumnAttributes>)
        requires
            old(self).wf(*w),
        ensures
            final(self).wf(*w),
            r == column_at(*w, pos),
    {
        let k = column_key(pos);
        let slot = (k % CACHE_SLOTS) as usize;
        let entry = self.slots[slot];
        match entry {
            Some((ek, ev)) if ek == k => ev,
            _ => {
                let v = w.lookup_column(pos);
                self.slots.set(slot, Some((k, v)));
                v
            },
        }
    }
}

} // verus!
