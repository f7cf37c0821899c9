//! The block generator: the per-worker generation context (world reference
//! plus column cache), the per-column `ZCache` bundle with its vertical
//! bounds, and the public voxel queries.

use vstd::prelude::*;

verus! {

use crate::block::Block;
use crate::cache::ColumnCache;
use crate::classify::{
    cave_pred,
    natural_block,
    rock_block,
    rock_pred,
    structure_block_one_exec,
    structure_find,
    voxel_at_spec,
};
use crate::column::ColumnAttributes;
use crate::fixed::{abs_i64, abs_spec, max_i64, max_spec, SCALE};
use crate::geom::{Vec2, Vec3};
use crate::heights::height_water;
use crate::structure::{
    lemma_resolved_template_in_range,
    lemma_units_small,
    resolve_candidate,
    structure_gen,
    StructureInfo,
};
use crate::world::{column_at, WorldIndex};

/// What one resolved structure slot adds to a column's upper bound: the
/// top of its template's local bounding box, provided the column lies in
/// the structure's rotated footprint.
pub open spec fn structure_term_one(
    w: WorldIndex,
    wpos: Vec2,
    slot: Option<(StructureInfo, ColumnAttributes)>,
) -> int {
    match slot {
        Some(pair) => {
            let st = pair.0;
            if 0 <= st.template < w.templates@.len() {
                let t = w.templates@[st.template as int];
                let rx = wpos.x - st.pos.x;
                let ry = wpos.y - st.pos.y;
                let lx = st.units.0.x * rx + st.units.1.x * ry;
                let ly = st.units.0.y * rx + st.units.1.y * ry;
                if t.contains_xy(lx, ly) {
                    t.top_z()
                } else {
                    0
                }
            } else {
                0
            }
        },
        None => 0,
    }
}

/// The largest structure term over the first `n` candidate slots.
pub open spec fn structure_term_fold(
    w: WorldIndex,
    wpos: Vec2,
    col: ColumnAttributes,
    n: int,
) -> int
    decreases n,
{
    if n <= 0 {
        0
    } else {
        max_spec(
            structure_term_fold(w, wpos, col, n - 1),
            structure_term_one(w, wpos, resolve_candidate(w, col.close_trees[n - 1])),
        )
    }
}

/// The structure term stays within a template's largest possible height.
pub proof fn lemma_structure_term_fold_bound(
    w: WorldIndex,
    wpos: Vec2,
    col: ColumnAttributes,
    n: int,
)
    requires
        w.wf(),
        n <= 9,
    ensures
        0 <= structure_term_fold(w, wpos, col, n) <= 512,
    decreases n,
{
    if n > 0 {
        lemma_structure_term_fold_bound(w, wpos, col, n - 1);
    }
}

/// A column's vertical bounds: below `lo` the column is settled ground
/// (apart from cave carving), above `hi` nothing is generated.  `lo` drops
/// by the chaos-scaled crust and by the cave span where cave likelihood is
/// high; `hi` rises with cliffs, the tallest overlapping structure
/// template, and the warp amplitude, and never falls below the water level
/// or two blocks above sea level.
pub open spec fn z_limits_at(w: WorldIndex, wpos: Vec2, col: ColumnAttributes) -> (int, int) {
    let cave_depth = if abs_spec(col.cave_xy as int) > 9000 {
        max_spec(col.alt - col.cave_alt + 80000, 0)
    } else {
        0
    };
    let lo = col.alt - (48 * col.chaos + cave_depth) - 40000;
    let cliff = if col.near_cliffs {
        480000int
    } else {
        0int
    };
    let st_term = structure_term_fold(w, wpos, col, 9) * (SCALE as int);
    let hi = max_spec(
        max_spec(col.alt + cliff + st_term + 48 * col.chaos + 80000, col.water_level as int),
        w.sea_level + 20000,
    );
    (lo, hi)
}

/// The public bounds answer for a column: nothing without column data.
pub open spec fn column_bounds_spec(w: WorldIndex, wpos: Vec2) -> Option<(int, int)> {
    match column_at(w, wpos) {
        Some(col) => Some(z_limits_at(w, wpos, col)),
        None => None,
    }
}

/// A per-column bundle: the column position, its attributes, and the nine
/// resolved structure slots, built once and reused across the column's
/// voxel queries.
pub struct ZCache {
    pub wpos: Vec2,
    pub sample: ColumnAttributes,
    pub structures: Vec<Option<(StructureInfo, ColumnAttributes)>>,
}

impl ZCache {
    /// The bundle faithfully reflects the world: the sample is the
    /// column's attributes and every slot is exactly what the resolver
    /// yields for the corresponding candidate.
    pub open spec fn inv(self, w: WorldIndex) -> bool {
        &&& column_at(w, self.wpos) == Some(self.sample)
        &&& self.structures@.len() == 9
        &&& forall|i: int|
            0 <= i < 9 ==> self.structures@[i] == resolve_candidate(
                w,
                self.sample.close_trees[i],
            )
    }

    /// The column's vertical bounds, fixed-point.
    pub fn get_z_limits(&self, w: &WorldIndex) -> (r: (i64, i64))
        requires
            w.wf(),
            self.inv(*w),
        ensures
            (r.0 as int, r.1 as int) == z_limits_at(*w, self.wpos, self.sample),
    {
        let col = &self.sample;
        let cave_depth: i64 = if abs_i64(col.cave_xy) > 9000 {
            max_i64(col.alt - col.cave_alt + 80000, 0)
        } else {
            0
        };
        let lo: i64 = col.alt - (48 * col.chaos + cave_depth) - 40000;
        let cliff: i64 = if col.near_cliffs {
            480000
        } else {
            0
        };
        proof {
            lemma_structure_term_fold_bound(*w, self.wpos, self.sample, 9);
        }
        let mut st_term: i64 = 0;
        let mut i: usize = 0;
        while i < 9
            invariant
                w.wf(),
                self.inv(*w),
                i <= 9,
                st_term == structure_term_fold(*w, self.wpos, self.sample, i as int),
                0 <= st_term <= 512,
            decreases 9 - i,
        {
            let one = self.structure_term_at(w, i);
            proof {
                lemma_structure_term_fold_bound(*w, self.wpos, self.sample, i as int + 1);
            }
            st_term = max_i64(st_term, one);
            i = i + 1;
        }
        let hi: i64 = max_i64(
            max_i64(col.alt + cliff + st_term * SCALE + 48 * col.chaos + 80000, col.water_level),
            w.sea_level + 20000,
        );
        (lo, hi)
    }

    /// The structure term of one slot.
    fn structure_term_at(&self, w: &WorldIndex, i: usize) -> (r: i64)
        requires
            w.wf(),
            self.inv(*w),
            i < 9,
        ensures
            r == structure_term_one(*w, self.wpos, self.structures@[i as int]),
            -512 <= r <= 512,
    {
        match &self.structures[i] {
            Some(pair) => {
                proof {
                    lemma_resolved_template_in_range(*w, self.sample.close_trees[i as int]);
                    lemma_units_small(self.sample.close_trees[i as int].seed);
                }
                let st = &pair.0;
                if st.template < w.templates.len() {
                    let t = &w.templates[st.template];
                    let rx: i64 = (self.wpos.x as i64) - (st.pos.x as i64);
                    let ry: i64 = (self.wpos.y as i64) - (st.pos.y as i64);
                    proof {
                        assert(-0x2_0000_0000 <= (st.units.0.x as i64) * rx <= 0x2_0000_0000
                            && -0x2_0000_0000 <= (st.units.1.x as i64) * ry <= 0x2_0000_0000
                            && -0x2_0000_0000 <= (st.units.0.y as i64) * rx <= 0x2_0000_0000
                            && -0x2_0000_0000 <= (st.units.1.y as i64) * ry <= 0x2_0000_0000)
                            by (nonlinear_arith)
                            requires
                                -1 <= st.units.0.x <= 1,
                                -1 <= st.units.0.y <= 1,
                                -1 <= st.units.1.x <= 1,
                                -1 <= st.units.1.y <= 1,
                                -0x2_0000_0000 <= rx <= 0x2_0000_0000,
                                -0x2_0000_0000 <= ry <= 0x2_0000_0000,
                        ;
                    }
                    let lx: i64 = (st.units.0.x as i64) * rx + (st.units.1.x as i64) * ry;
                    let ly: i64 = (st.units.0.y as i64) * rx + (st.units.1.y as i64) * ry;
                    let inside = lx >= (t.min.x as i64) && lx < (t.min.x as i64) + (t.size.x
                        as i64) && ly >= (t.min.y as i64) && ly < (t.min.y as i64) + (t.size.y
                        as i64);
                    if inside {
                        (t.min.z as i64) + (t.size.z as i64)
                    } else {
                        0
                    }
                } else {
                    0
                }
            },
            None => 0,
        }
    }
}

/// A generation context: the shared world and this worker's own column
/// cache.  Contexts are independent; the cache never changes an answer.
pub struct BlockGen {
    pub world: WorldIndex,
    pub cache: ColumnCache,
}

impl BlockGen {
    /// The world is well-formed and the cache agrees with it.
    pub open spec fn wf(self) -> bool {
        &&& self.world.wf()
        &&& self.cache.wf(self.world)
    }

    /// A fresh context over a world.
    pub fn new(world: WorldIndex) -> (r: BlockGen)
        requires
            world.wf(),
        ensures
            r.wf(),
            r.world == world,
    {
        BlockGen { world, cache: ColumnCache::new() }
    }

    /// The sampler's answer for a column, through this context's cache.
    fn sample_column(&mut self, wpos: Vec2) -> (r: Option<ColumnAttributes>)
        requires
            old(self).wf(),
        ensures
            final(self).wf(),
            final(self).world == old(self).world,
            r == column_at(old(self).world, wpos),
    {
        self.cache.get(&self.world, wpos)
    }

    /// Build the per-column bundle: the column's attributes plus all nine
    /// resolved structure slots; nothing where the column has no data.
    pub fn get_z_cache(&mut self, wpos: Vec2) -> (r: Option<ZCache>)
        requires
            old(self).wf(),
        ensures
            final(self).wf(),
            final(self).world == old(self).world,
            match r {
                Some(zc) => zc.inv(old(self).world) && zc.wpos == wpos,
                None => column_at(old(self).world, wpos) is None,
            },
    {
        let ghost w0 = self.world;
        let sample = match self.sample_column(wpos) {
            Some(s) => s,
            None => {
                return None;
            },
        };
        let mut structures: Vec<Option<(StructureInfo, ColumnAttributes)>> = Vec::new();
        let mut i: usize = 0;
        while i < 9
            invariant
                self.wf(),
                self.world == w0,
                i <= 9,
                structures@.len() == i,
                forall|j: int|
                    0 <= j < i ==> structures@[j] == resolve_candidate(
                        w0,
                        sample.close_trees[j],
                    ),
            decreases 9 - i,
        {
            let cand = sample.close_trees[i];
            let slot = structure_gen(&self.world, &mut self.cache, cand);
            structures.push(slot);
            i = i + 1;
        }
        Some(ZCache { wpos, sample, structures })
    }

    /// The first structure slot showing a non-empty voxel at `p`.
    fn structure_override(&self, zc: &ZCache, p: Vec3) -> (r: Option<Block>)
        requires
            self.wf(),
            zc.inv(self.world),
        ensures
            r == structure_find(self.world, zc.sample, p, 0),
    {
        let mut i: usize = 0;
        while i < 9
            invariant
                self.wf(),
                zc.inv(self.world),
                i <= 9,
                structure_find(self.world, zc.sample, p, 0) == structure_find(
                    self.world,
                    zc.sample,
                    p,
                    i as int,
                ),
            decreases 9 - i,
        {
            match &zc.structures[i] {
                Some(pair) => {
                    proof {
                        lemma_resolved_template_in_range(
                            self.world,
                            zc.sample.close_trees[i as int],
                        );
                        lemma_units_small(zc.sample.close_trees[i as int].seed);
                    }
                    match structure_block_one_exec(&self.world, &pair.0, p) {
                        Some(b) => {
                            return Some(b);
                        },
                        None => {},
                    }
                },
                None => {},
            }
            i = i + 1;
        }
        None
    }

    /// The voxel at `wpos`, classified against a previously built bundle
    /// for its column; nothing when no bundle is given.
    pub fn get_with_z_cache(&mut self, wpos: Vec3, z_cache: Option<&ZCache>) -> (r: Option<
        Block,
    >)
        requires
            old(self).wf(),
            match z_cache {
                Some(zc) => zc.inv(old(self).world) && zc.wpos == wpos.spec_xy(),
                None => true,
            },
        ensures
            final(self).wf(),
            final(self).world == old(self).world,
            r == match z_cache {
                Some(zc) => voxel_at_spec(old(self).world, wpos),
                None => None::<Block>,
            },
    {
        let zc = match z_cache {
            Some(zc) => zc,
            None => {
                return None;
            },
        };
        let col = zc.sample;
        let hw = height_water(&self.world, &mut self.cache, &col, wpos);
        let du = hw.0;
        let height = hw.1;
        let water = hw.2;
        let natural = natural_block(&col, height, water, wpos.z);
        let carved = cave_pred(&col, wpos.z);
        let base = if carved {
            None
        } else {
            natural
        };
        let rocked = if base.is_none() && !carved && rock_pred(height, wpos.z, col.rock) {
            Some(rock_block(self.world.seed, wpos))
        } else {
            base
        };
        let natural_result = match rocked {
            Some(b) => b,
            None => Block::empty(),
        };
        if du {
            Some(natural_result)
        } else {
            match self.structure_override(zc, wpos) {
                Some(b) => Some(b),
                None => Some(natural_result),
            }
        }
    }

    /// The voxel at a position, building the column bundle afresh.
    pub fn get(&mut self, wpos: Vec3) -> (r: Option<Block>)
        requires
            old(self).wf(),
        ensures
            final(self).wf(),
            final(self).world == old(self).world,
            r == voxel_at_spec(old(self).world, wpos),
    {
        let zc = self.get_z_cache(wpos.xy());
        match zc {
            Some(zc) => self.get_with_z_cache(wpos, Some(&zc)),
            None => None,
        }
    }

    /// The voxel at a position, with an optional precomputed bundle for
    /// its column.
    ///
    /// Determinism: the result equals `voxel_at_spec` of the world and the
    /// position alone, and the world is never changed — so for a fixed
    /// world any two calls at the same position agree, in any order,
    /// interleaved with any other queries, whatever the cache holds or
    /// evicts, and whether or not a bundle is passed.
    pub fn voxel_at(&mut self, pos: Vec3, z_cache: Option<&ZCache>) -> (r: Option<Block>)
        requires
            old(self).wf(),
            match z_cache {
                Some(zc) => zc.inv(old(self).world) && zc.wpos == pos.spec_xy(),
                None => true,
            },
        ensures
            final(self).wf(),
            final(self).world == old(self).world,
            r == voxel_at_spec(old(self).world, pos),
    {
        match z_cache {
            Some(zc) => self.get_with_z_cache(pos, Some(zc)),
            None => self.get(pos),
        }
    }

    /// The vertical bounds of a column: nothing where the column sampler
    /// has no data.
    pub fn column_bounds(&mut self, wpos: Vec2) -> (r: Option<(i64, i64)>)
        requires
            old(self).wf(),
        ensures
            final(self).wf(),
            final(self).world == old(self).world,
            match r {
                Some(b) => column_bounds_spec(old(self).world, wpos) == Some(
                    (b.0 as int, b.1 as int),
                ),
                None => column_bounds_spec(old(self).world, wpos) is None,
            },
    {
        match self.get_z_cache(wpos) {
            Some(zc) => Some(zc.get_z_limits(&self.world)),
            None => None,
        }
    }
}

} // verus!
