//! The immutable world context: seed, sea level, the column sampler's table
//! of generated columns, and the shared template assets.

use vstd::prelude::*;

verus! {

use crate::column::ColumnAttributes;
use crate::fixed::ALT_LIM;
use crate::geom::Vec2;
use crate::template::Template;
use std::collections::HashMap;

/// The table key standing for a horizontal position: both signed
/// coordinates shifted into `[0, 2^32)` and packed into one word.
pub open spec fn column_key_spec(pos: Vec2) -> u64 {
    ((pos.x + 0x8000_0000) * 0x1_0000_0000 + (pos.y + 0x8000_0000)) as u64
}

/// Executable key packing.
pub fn column_key(pos: Vec2) -> (k: u64)
    ensures
        k == column_key_spec(pos),
{
    let hi: u64 = ((pos.x as i64) + 0x8000_0000) as u64;
    let lo: u64 = ((pos.y as i64) + 0x8000_0000) as u64;
    hi * 0x1_0000_0000 + lo
}

/// The world context handed (by reference) into every query: the world
/// seed, the configured sea level, the column sampler's generated domain,
/// and the global read-only template table.
pub struct WorldIndex {
    pub seed: u32,
    /// Global sea level, fixed-point.
    pub sea_level: i64,
    /// The column sampler: attributes for every generated column; a column
    /// absent here has no data.
    pub columns: HashMap<u64, ColumnAttributes>,
    /// The global template assets, selected into by seed.
    pub templates: Vec<Template>,
}

/// What the column sampler reports at a position: attributes for a
/// generated column, nothing outside the generated domain.
pub open spec fn column_at(w: WorldIndex, pos: Vec2) -> Option<ColumnAttributes> {
    let k = column_key_spec(pos);
    if w.columns@.contains_key(k) {
        Some(w.columns@[k])
    } else {
        None
    }
}

impl WorldIndex {
    /// Every stored column and template is well-formed and the sea level is
    /// in range.
    pub open spec fn wf(self) -> bool {
        &&& -ALT_LIM <= self.sea_level <= ALT_LIM
        &&& forall|k: u64| #[trigger]
            self.columns@.contains_key(k) ==> self.columns@[k].wf()
        &&& forall|i: int|
            0 <= i < self.templates@.len() ==> (#[trigger] self.templates@[i]).wf()
    }

    /// An empty world: no generated columns, no templates.
    pub fn new(seed: u32, sea_level: i64) -> (w: WorldIndex)
        requires
            -ALT_LIM <= sea_level <= ALT_LIM,
        ensures
            w.wf(),
            w.seed == seed,
            w.sea_level == sea_level,
            w.columns@ == Map::<u64, ColumnAttributes>::empty(),
            w.templates@ == Seq::<Template>::empty(),
    {
        WorldIndex { seed, sea_level, columns: HashMap::new(), templates: Vec::new() }
    }

    /// Record the sampler's attributes for a column.
    pub fn insert_column(&mut self, pos: Vec2, attrs: ColumnAttributes)
        requires
            old(self).wf(),
            attrs.wf(),
        ensures
            final(self).wf(),
            final(self).columns@ == old(self).columns@.insert(column_key_spec(pos), attrs),
            column_at(*final(self), pos) == Some(attrs),
            final(self).seed == old(self).seed,
            final(self).sea_level == old(self).sea_level,
            final(self).templates == old(self).templates,
    {
        let k = column_key(pos);
        self.columns.insert(k, attrs);
    }

    /// Add a template to the asset table, after checking its shape; returns
    /// whether it was accepted.
    pub fn add_template(&mut self, t: Template) -> (ok: bool)
        requires
            old(self).wf(),
        ensures
            final(self).wf(),
            ok == t.wf(),
            ok ==> final(self).templates@ == old(self).templates@.push(t),
            !ok ==> final(self).templates == old(self).templates,
            final(self).seed == old(self).seed,
            final(self).sea_level == old(self).sea_level,
            final(self).columns == old(self).columns,
    {
        let size_ok = 1 <= t.size.x && t.size.x <= 256 && 1 <= t.size.y && t.size.y <= 256 && 1
            <= t.size.z && t.size.z <= 256;
        let min_ok = -256 <= t.min.x && t.min.x <= 256 && -256 <= t.min.y && t.min.y <= 256
            && -256 <= t.min.z && t.min.z <= 256;
        if size_ok && min_ok {
            let sx: usize = t.size.x as usize;
            let sy: usize = t.size.y as usize;
            let sz: usize = t.size.z as usize;
            proof {
                assert(sx * sy <= 0x10000) by (nonlinear_arith)
                    requires
                        sx <= 256usize,
                        sy <= 256usize,
                ;
            }
            let sxy: usize = sx * sy;
            proof {
                assert(sxy * sz <= 0x1000000) by (nonlinear_arith)
                    requires
                        sxy <= 0x10000usize,
                        sz <= 256usize,
                ;
            }
            let cells: usize = sxy * sz;
            if t.blocks.len() == cells {
                self.templates.push(t);
                return true;
            }
            false
        } else {
            false
        }
    }

    /// What the column sampler has for a position, if anything.
    pub fn lookup_column(&self, pos: Vec2) -> (r: Option<ColumnAttributes>)
        ensures
            r == column_at(*self, pos),
    {
        let k = column_key(pos);
        match self.columns.get(&k) {
            Some(attrs) => Some(*attrs),
            None => None,
        }
    }
}

} // verus!
