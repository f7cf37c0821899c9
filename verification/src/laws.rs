//! Properties of the whole pipeline, stated and proved over the same spec
//! functions that the executable functions' contracts use.
//!
//! Determinism itself needs no lemma here: every query's contract states
//! that its result equals a pure function of the world and the position,
//! and that the world is never changed, so two calls in any order and with
//! any cache state agree.

use vstd::prelude::*;

verus! {

use crate::block::Block;
use crate::block_gen::{
    column_bounds_spec,
    structure_term_fold,
    structure_term_one,
    z_limits_at,
    lemma_structure_term_fold_bound,
};
use crate::classify::{
    cave_at,
    classify_at,
    natural_block_at,
    rock_at,
    structure_block_one,
    structure_find,
    voxel_at_spec,
};
use crate::column::{ColumnAttributes, StructureCandidate};
use crate::field::field_value;
use crate::fixed::{abs_spec, max_spec, SCALE};
use crate::geom::{Vec2, Vec3};
use crate::heights::{cliff_fold, height_water_at, lemma_warp_bounds, warp_at};
use crate::structure::{resolve_candidate, seed_plus};
use crate::world::{column_at, WorldIndex};
use vstd::arithmetic::div_mod::{lemma_div_is_ordered, lemma_mod_bound};

/// Determinism of the per-column bundle: two bundles that both faithfully
/// reflect the same world for the same column are the same bundle, so a
/// cached bundle can never answer differently from a freshly built one.
pub proof fn lemma_z_cache_unique(
    w: WorldIndex,
    zc1: crate::block_gen::ZCache,
    zc2: crate::block_gen::ZCache,
)
    requires
        zc1.inv(w),
        zc2.inv(w),
        zc1.wpos == zc2.wpos,
    ensures
        zc1.sample == zc2.sample,
        zc1.structures@ =~= zc2.structures@,
{
    assert(Some(zc1.sample) == Some(zc2.sample));
    assert forall|i: int| 0 <= i < 9 implies zc1.structures@[i] == zc2.structures@[i] by {
        assert(zc1.structures@[i] == resolve_candidate(w, zc1.sample.close_trees[i]));
        assert(zc2.structures@[i] == resolve_candidate(w, zc2.sample.close_trees[i]));
    }
}

/// No-data propagation: a column without bounds has no voxels either — at
/// every height the answer is "no data", never a (possibly empty) voxel.
pub proof fn lemma_no_data_propagation(w: WorldIndex, c: Vec2, z: i32)
    requires
        column_bounds_spec(w, c) is None,
    ensures
        voxel_at_spec(w, Vec3 { x: c.x, y: c.y, z }) is None,
{
    let p = Vec3 { x: c.x, y: c.y, z };
    assert(p.spec_xy() == c);
}

/// Cave exclusivity: where the carving predicate holds, the voxel is empty
/// — even where the rock-decoration predicate would also hold — as long
/// as no structure covers the cell (in the short-circuit underground
/// region structures are skipped, so the premise holds trivially there).
pub proof fn lemma_cave_exclusivity(w: WorldIndex, p: Vec3)
    requires
        column_at(w, p.spec_xy()) is Some,
        cave_at(column_at(w, p.spec_xy())->Some_0, p.z as int),
        ({
            let col = column_at(w, p.spec_xy())->Some_0;
            height_water_at(w, col, p).0 || structure_find(w, col, p, 0) is None
        }),
    ensures
        voxel_at_spec(w, p) == Some(Block::spec_empty()),
{
}

/// Any voxel the structure pass yields is non-empty.
pub proof fn lemma_structure_find_nonempty(w: WorldIndex, col: ColumnAttributes, p: Vec3, i: int)
    requires
        structure_find(w, col, p, i) is Some,
    ensures
        !structure_find(w, col, p, i)->Some_0.spec_is_empty(),
    decreases 9 - i,
{
    if i < 0 || i >= 9 {
    } else {
        match resolve_candidate(w, col.close_trees[i]) {
            Some(pair) => {
                match structure_block_one(w, pair.0, p) {
                    Some(b) => {},
                    None => {
                        lemma_structure_find_nonempty(w, col, p, i + 1);
                    },
                }
            },
            None => {
                lemma_structure_find_nonempty(w, col, p, i + 1);
            },
        }
    }
}

/// Structure override precedence: outside the short-circuit underground
/// region, the first structure slot that shows a non-empty voxel decides
/// the answer, whatever the natural layers, the carving pass or the rock
/// pass would have produced.
pub proof fn lemma_structure_override_precedence(w: WorldIndex, p: Vec3, b: Block)
    requires
        column_at(w, p.spec_xy()) is Some,
        ({
            let col = column_at(w, p.spec_xy())->Some_0;
            &&& !height_water_at(w, col, p).0
            &&& structure_find(w, col, p, 0) == Some(b)
        }),
    ensures
        voxel_at_spec(w, p) == Some(b),
{
}

/// Bounds soundness, lower side.  Below the lower bound the column is not
/// empty but settled ground: the voxel is always an answer, and it can
/// only be empty where the cave-carving predicate holds.  (A blanket
/// "empty below the bound" cannot hold: underground material extends all
/// the way down.)
pub proof fn lemma_below_lower_bound_only_caves_empty(w: WorldIndex, c: Vec2, z: i32)
    requires
        w.wf(),
        column_at(w, c) is Some,
        ({
            let col = column_at(w, c)->Some_0;
            (z as int) * (SCALE as int) < z_limits_at(w, c, col).0
        }),
    ensures
        voxel_at_spec(w, Vec3 { x: c.x, y: c.y, z }) is Some,
        voxel_at_spec(w, Vec3 { x: c.x, y: c.y, z })->Some_0.spec_is_empty() ==> cave_at(
            column_at(w, c)->Some_0,
            z as int,
        ),
{
    let p = Vec3 { x: c.x, y: c.y, z };
    assert(p.spec_xy() == c);
    let col = column_at(w, c)->Some_0;
    assert(col.wf());
    let zf = (z as int) * (SCALE as int);
    let gd = 15000 + 2 * col.chaos;
    let hw = height_water_at(w, col, p);
    let height = hw.1;

    // Wherever the height lands, the query sits below the crust: the warp
    // cannot pull the surface down as far as the lower bound reaches.
    lemma_warp_bounds(w.seed, col.chaos as int, p);
    assert(height >= col.alt + warp_at(w.seed, col.chaos as int, p) || hw.0);
    assert(zf < height - gd);
    let natural = natural_block_at(col, height, hw.2, p.z as int);
    assert(natural is Some && !natural->Some_0.spec_is_empty());

    if !hw.0 {
        match structure_find(w, col, p, 0) {
            Some(b) => {
                lemma_structure_find_nonempty(w, col, p, 0);
            },
            None => {},
        }
    }
}

/// The extra height allowed for cliffs in a column's upper bound.
pub open spec fn cliff_allowance(col: ColumnAttributes) -> int {
    if col.near_cliffs {
        480000int
    } else {
        0int
    }
}

/// Every cliff-bearing neighbor of the column is low enough that its
/// largest possible contribution stays within the column's cliff
/// allowance.
pub open spec fn cliffs_bounded(w: WorldIndex, col: ColumnAttributes) -> bool {
    forall|i: int|
        0 <= i < 9 ==> match column_at(w, (#[trigger] col.close_cliffs[i]).pos) {
            Some(cs) => (cs.is_cliffs && cs.spawn_rate > 5000) ==> cs.alt + 470000 + col.cliff_hill
                <= col.alt + cliff_allowance(col),
            None => true,
        }
}

/// Every structure resolved near the column has its origin at or below the
/// column's base altitude.
pub open spec fn structures_grounded(w: WorldIndex, col: ColumnAttributes) -> bool {
    forall|i: int|
        0 <= i < 9 ==> match resolve_candidate(w, (#[trigger] col.close_trees[i])) {
            Some(pair) => pair.0.pos.z * (SCALE as int) <= col.alt,
            None => true,
        }
}

/// Under bounded cliffs the cliff fold cannot rise above the allowance.
proof fn lemma_cliff_fold_bounded(
    w: WorldIndex,
    col: ColumnAttributes,
    wtx: int,
    wty: int,
    n: int,
)
    requires
        w.wf(),
        col.wf(),
        0 <= col.alt,
        cliffs_bounded(w, col),
        n <= 9,
    ensures
        cliff_fold(w, col, wtx, wty, n) <= col.alt + cliff_allowance(col),
    decreases n,
{
    if n <= 0 {
    } else {
        lemma_cliff_fold_bounded(w, col, wtx, wty, n - 1);
        let cand = col.close_cliffs[n - 1];
        match column_at(w, cand.pos) {
            Some(cs) => {
                let h = field_value(
                    seed_plus(cand.seed, 1),
                    cand.pos.x as int,
                    cand.pos.y as int,
                    0,
                ) % 48;
                lemma_mod_bound(
                    field_value(seed_plus(cand.seed, 1), cand.pos.x as int, cand.pos.y as int, 0),
                    48,
                );
                assert(cs.wf());
                assert(0 <= h * ((SCALE as int) - cs.chaos) <= 470000) by (nonlinear_arith)
                    requires
                        0 <= h < 48,
                        0 <= (SCALE as int) - cs.chaos <= SCALE,
                ;
            },
            None => {},
        }
    }
}

/// The fold over all nine slots dominates each single slot's term.
proof fn lemma_structure_term_covers(w: WorldIndex, wpos: Vec2, col: ColumnAttributes, i: int, n: int)
    requires
        0 <= i < n <= 9,
    ensures
        structure_term_fold(w, wpos, col, n) >= structure_term_one(
            w,
            wpos,
            resolve_candidate(w, col.close_trees[i]),
        ),
    decreases n,
{
    if i == n - 1 {
    } else {
        lemma_structure_term_covers(w, wpos, col, i, n - 1);
    }
}

/// Above the column's upper bound no structure shows a voxel.
proof fn lemma_structure_find_none_above(
    w: WorldIndex,
    col: ColumnAttributes,
    p: Vec3,
    i: int,
)
    requires
        w.wf(),
        col.wf(),
        structures_grounded(w, col),
        (p.z as int) * (SCALE as int) > col.alt + structure_term_fold(w, p.spec_xy(), col, 9) * (
        SCALE as int),
        0 <= i,
    ensures
        structure_find(w, col, p, i) is None,
    decreases 9 - i,
{
    if i >= 9 {
    } else {
        lemma_structure_find_none_above(w, col, p, i + 1);
        match resolve_candidate(w, col.close_trees[i]) {
            Some(pair) => {
                let st = pair.0;
                if 0 <= st.template < w.templates@.len() {
                    let t = w.templates@[st.template as int];
                    let rx = p.x - st.pos.x;
                    let ry = p.y - st.pos.y;
                    let rz = p.z - st.pos.z;
                    let lx = st.units.0.x * rx + st.units.1.x * ry;
                    let ly = st.units.0.y * rx + st.units.1.y * ry;
                    if t.contains_xy(lx, ly) {
                        assert(structure_term_one(
                            w,
                            p.spec_xy(),
                            resolve_candidate(w, col.close_trees[i]),
                        ) == t.top_z());
                        lemma_structure_term_covers(w, p.spec_xy(), col, i, 9);
                        let fold9 = structure_term_fold(w, p.spec_xy(), col, 9);
                        assert(st.pos.z * (SCALE as int) <= col.alt);
                        assert((p.z as int) * (SCALE as int) > st.pos.z * (SCALE as int)
                            + fold9 * (SCALE as int));
                        assert(fold9 * (SCALE as int) >= t.top_z() * (SCALE as int))
                            by (nonlinear_arith)
                            requires
                                fold9 >= t.top_z(),
                                (SCALE as int) > 0,
                        ;
                        assert((p.z as int) * (SCALE as int) > (st.pos.z + t.top_z()) * (
                        SCALE as int)) by (nonlinear_arith)
                            requires
                                (p.z as int) * (SCALE as int) > st.pos.z * (SCALE as int)
                                    + t.top_z() * (SCALE as int),
                        ;
                        assert(p.z as int > st.pos.z + t.top_z()) by (nonlinear_arith)
                            requires
                                (p.z as int) * (SCALE as int) > (st.pos.z + t.top_z()) * (
                                SCALE as int),
                                (SCALE as int) > 0,
                        ;
                        assert(!t.contains(lx, ly, rz));
                        assert(t.block_at(lx, ly, rz) is None);
                    }
                }
            },
            None => {},
        }
    }
}

/// Bounds soundness, upper side: strictly above the column's upper bound
/// the voxel is empty.  Holds for columns whose base altitude is
/// non-negative, whose water table stands at most `12.8` blocks above the
/// base altitude, whose rock density stays below `0.5377` unless chaos
/// reaches `0.1` (below that chaos the warp vanishes while the rock band
/// keeps its full reach), whose cliff-bearing neighbors stay within the
/// cliff allowance, and whose resolved structures are grounded at or below
/// the base altitude.  (Below the lower bound the column is settled ground
/// rather than empty space, so no such statement holds there.)
pub proof fn lemma_bounds_soundness_above(w: WorldIndex, c: Vec2, z: i32)
    requires
        w.wf(),
        column_at(w, c) is Some,
        ({
            let col = column_at(w, c)->Some_0;
            &&& 0 <= col.alt
            &&& col.water_level <= col.alt + 128000
            &&& (col.chaos >= 1000 || col.rock <= 5377)
            &&& cliffs_bounded(w, col)
            &&& structures_grounded(w, col)
        }),
        (z as int) * (SCALE as int) > column_bounds_spec(w, c)->Some_0.1,
    ensures
        voxel_at_spec(w, Vec3 { x: c.x, y: c.y, z }) == Some(Block::spec_empty()),
{
    let p = Vec3 { x: c.x, y: c.y, z };
    assert(p.spec_xy() == c);
    let col = column_at(w, c)->Some_0;
    assert(col.wf());
    let zf = (z as int) * (SCALE as int);
    let st9 = structure_term_fold(w, c, col, 9);
    lemma_structure_term_fold_bound(w, c, col, 9);
    let hi = z_limits_at(w, c, col).1;
    assert(hi >= col.alt + cliff_allowance(col) + st9 * (SCALE as int) + 48 * col.chaos + 80000);
    assert(st9 * (SCALE as int) >= 0) by (nonlinear_arith)
        requires
            st9 >= 0,
    ;

    // The short-circuit underground branch cannot fire above the bound.
    let hw = height_water_at(w, col, p);
    assert(zf > col.alt - 64 * col.chaos);
    assert(!hw.0);

    // The synthesized height stays under the bound with margin.
    let warpmax = max_spec(48 * (col.chaos - 1000), 0);
    lemma_warp_bounds(w.seed, col.chaos as int, p);
    assert(48 * max_spec(col.chaos - 1000, 0) == warpmax);
    let height = hw.1;
    let wtx = (p.x as int) * (SCALE as int) + crate::heights::turb_x_at(
        w.seed,
        p.x as int,
        p.y as int,
    );
    let wty = (p.y as int) * (SCALE as int) + crate::heights::turb_y_at(
        w.seed,
        p.x as int,
        p.y as int,
    );
    lemma_cliff_fold_bounded(w, col, wtx, wty, 9);
    assert(height <= col.alt + cliff_allowance(col) + warpmax);
    assert(warpmax <= max_spec(48 * col.chaos - 48000, 0));
    assert(col.chaos >= 1000 ==> hi >= height + 128000);
    assert(col.chaos < 1000 ==> warpmax == 0 && hi >= height + 80000);
    assert(zf >= hi + 1);
    assert(zf >= height + 80001);

    // No natural layer reaches above the bound: the ground is below, and
    // the warped water table is inside the bound too.
    let water = hw.2;
    assert(warp_at(w.seed, col.chaos as int, p) <= warpmax);
    assert(water <= hi);
    assert(natural_block_at(col, height, water, p.z as int) is None);

    // The rock band ends below the bound.
    assert(!rock_at(height, p.z as int, col.rock as int)) by {
        let e = abs_spec(height + 25000 - zf);
        assert(e == zf - height - 25000);
        assert(e >= 55001);
        if e < 75000 {
            let q = (e * 2) / 15;
            lemma_div_is_ordered(110002, e * 2, 15);
            assert(q >= 7333);
            if col.chaos >= 1000 {
                assert(e >= 103001);
            } else {
                assert(col.rock * (SCALE as int) <= 53_770_000);
                assert(q * q >= 53_772_889) by (nonlinear_arith)
                    requires
                        q >= 7333,
                ;
            }
        }
    }

    // No structure reaches above the bound either.
    assert(zf > col.alt + st9 * (SCALE as int));
    lemma_structure_find_none_above(w, col, p, 0);
    assert(structure_find(w, col, p, 0) is None);

    assert(classify_at(w, col, p) == Block::spec_empty());
}

} // verus!
