//! The height field synthesizer: base altitude, domain warp, and
//! turbulence-perturbed cliff contributions combined into the terrain
//! height and water height at a query position.

use vstd::prelude::*;

verus! {

use crate::cache::ColumnCache;
use crate::column::{ColumnAttributes, StructureCandidate};
use crate::field::field_value;
use crate::fixed::{div_nonneg, max_i64, max_spec, ALT_LIM, SCALE};
use crate::geom::Vec3;
use crate::noise::{noise2, noise2_value, noise3, noise3_value, lemma_noise2_bounds,
    lemma_noise3_bounds, TURB_PERIOD, WARP_PERIOD};
use crate::structure::seed_plus;
use crate::world::{column_at, WorldIndex};
use vstd::arithmetic::div_mod::{
    lemma_div_is_ordered,
    lemma_div_multiples_vanish,
    lemma_mod_bound,
};

/// Largest magnitude a synthesized height or water height can take.
pub const HEIGHT_LIM: i64 = 2_000_000_500_000;

/// Largest magnitude of a turbulence-perturbed horizontal coordinate
/// (fixed-point).
pub const TURB_POS_LIM: i64 = 21_474_896_480_000;

/// The seed of the 3-D domain-warp noise field.
pub open spec fn warp_seed(seed: u32) -> u32 {
    seed_plus(seed, 3)
}

/// The seed of the x-channel turbulence field.
pub open spec fn turb_seed_x(seed: u32) -> u32 {
    seed_plus(seed, 4)
}

/// The seed of the y-channel turbulence field.
pub open spec fn turb_seed_y(seed: u32) -> u32 {
    seed_plus(seed, 5)
}

/// The vertical warp at a position: the 3-D noise value, centered, scaled
/// by the chaos excess over `0.1` (clamped at zero) and by the fixed
/// amplitude 96.
pub open spec fn warp_at(seed: u32, chaos: int, p: Vec3) -> int {
    let u = noise3_value(warp_seed(seed), p.x as int, p.y as int, p.z as int, WARP_PERIOD as int);
    let c = max_spec(chaos - 1000, 0);
    (u * c * 96) / (SCALE as int) - 48 * c
}

/// The warp amplitude stays within `48 * chaos` on either side.
pub proof fn lemma_warp_bounds(seed: u32, chaos: int, p: Vec3)
    requires
        0 <= chaos <= SCALE,
    ensures
        -48 * max_spec(chaos - 1000, 0) <= warp_at(seed, chaos, p) <= 48 * max_spec(
            chaos - 1000,
            0,
        ),
        -48 * chaos <= warp_at(seed, chaos, p) <= 48 * chaos,
        chaos <= 1000 ==> warp_at(seed, chaos, p) == 0,
{
    let u = noise3_value(warp_seed(seed), p.x as int, p.y as int, p.z as int, WARP_PERIOD as int);
    let c = max_spec(chaos - 1000, 0);
    lemma_noise3_bounds(warp_seed(seed), p.x as int, p.y as int, p.z as int, WARP_PERIOD as int);
    assert(0 <= u * c * 96 <= SCALE * c * 96) by (nonlinear_arith)
        requires
            0 <= u <= SCALE,
            0 <= c,
    ;
    lemma_div_is_ordered(0, u * c * 96, SCALE as int);
    lemma_div_is_ordered(u * c * 96, SCALE * c * 96, SCALE as int);
    assert(SCALE * c * 96 == (SCALE as int) * (c * 96)) by (nonlinear_arith);
    lemma_div_multiples_vanish(c * 96, SCALE as int);
    assert(48 * c <= 48 * chaos) by (nonlinear_arith)
        requires
            c <= chaos,
    ;
}

/// Executable warp.
pub fn warp(seed: u32, chaos: i64, p: Vec3) -> (r: i64)
    requires
        0 <= chaos <= SCALE,
    ensures
        r == warp_at(seed, chaos as int, p),
        -48 * chaos <= r <= 48 * chaos,
{
    proof {
        lemma_warp_bounds(seed, chaos as int, p);
    }
    let u = noise3(seed.wrapping_add(3), p, WARP_PERIOD);
    let c = max_i64(chaos - 1000, 0);
    proof {
        assert(0 <= u * c <= SCALE * SCALE) by (nonlinear_arith)
            requires
                0 <= u <= SCALE,
                0 <= c <= SCALE,
        ;
    }
    let t = div_nonneg(u * c * 96, SCALE);
    t - 48 * c
}

/// The turbulence offsets added to the horizontal query position before
/// cliff tests: two independent 2-D noise fields, centered and scaled by
/// the fixed amplitude 12.
pub open spec fn turb_x_at(seed: u32, x: int, y: int) -> int {
    (noise2_value(turb_seed_x(seed), x, y, TURB_PERIOD as int) - 5000) * 12
}

/// See [`turb_x_at`].
pub open spec fn turb_y_at(seed: u32, x: int, y: int) -> int {
    (noise2_value(turb_seed_y(seed), x, y, TURB_PERIOD as int) - 5000) * 12
}

/// Executable turbulence, both channels.
pub fn turb(seed: u32, x: i32, y: i32) -> (r: (i64, i64))
    ensures
        r.0 == turb_x_at(seed, x as int, y as int),
        r.1 == turb_y_at(seed, x as int, y as int),
        -60000 <= r.0 <= 60000,
        -60000 <= r.1 <= 60000,
{
    proof {
        lemma_noise2_bounds(turb_seed_x(seed), x as int, y as int, TURB_PERIOD as int);
        lemma_noise2_bounds(turb_seed_y(seed), x as int, y as int, TURB_PERIOD as int);
    }
    let nx = noise2(seed.wrapping_add(4), x, y, TURB_PERIOD);
    let ny = noise2(seed.wrapping_add(5), x, y, TURB_PERIOD);
    ((nx - 5000) * 12, (ny - 5000) * 12)
}

/// What one candidate cliff-bearing neighbor contributes to the height at
/// a turbulence-perturbed position (fixed-point coordinates `wtx`, `wty`):
/// nothing unless the neighbor's column is a cliff column with spawn rate
/// above one half and the position falls within a seed-derived radius of
/// it; otherwise its altitude raised by a seed-derived height (scaled down
/// by the neighbor's chaos) and the home column's hill offset.
pub open spec fn cliff_contrib(
    w: WorldIndex,
    col: ColumnAttributes,
    cand: StructureCandidate,
    wtx: int,
    wty: int,
) -> int {
    match column_at(w, cand.pos) {
        Some(cs) => if cs.is_cliffs && cs.spawn_rate > 5000 {
            let h = field_value(seed_plus(cand.seed, 1), cand.pos.x as int, cand.pos.y as int, 0)
                % 48;
            let radius = field_value(
                seed_plus(cand.seed, 2),
                cand.pos.x as int,
                cand.pos.y as int,
                0,
            ) % 48 + 8;
            let dx = cand.pos.x * (SCALE as int) - wtx;
            let dy = cand.pos.y * (SCALE as int) - wty;
            if dx * dx + dy * dy < radius * radius * (SCALE as int) * (SCALE as int) {
                cs.alt + h * ((SCALE as int) - cs.chaos) + col.cliff_hill
            } else {
                0
            }
        } else {
            0
        },
        None => 0,
    }
}

/// The cliff height at a perturbed position: the maximum contribution of
/// the first `n` candidate neighbors, never below zero.
pub open spec fn cliff_fold(
    w: WorldIndex,
    col: ColumnAttributes,
    wtx: int,
    wty: int,
    n: int,
) -> int
    decreases n,
{
    if n <= 0 {
        0
    } else {
        max_spec(
            cliff_fold(w, col, wtx, wty, n - 1),
            cliff_contrib(w, col, col.close_cliffs[n - 1], wtx, wty),
        )
    }
}

/// A single contribution is bounded by the altitude and hill limits plus
/// the largest seed-derived height.
pub proof fn lemma_cliff_contrib_bound(
    w: WorldIndex,
    col: ColumnAttributes,
    cand: StructureCandidate,
    wtx: int,
    wty: int,
)
    requires
        w.wf(),
        col.wf(),
    ensures
        cliff_contrib(w, col, cand, wtx, wty) <= 2 * ALT_LIM + 470000,
{
    match column_at(w, cand.pos) {
        Some(cs) => {
            assert(cs.wf());
            let h = field_value(seed_plus(cand.seed, 1), cand.pos.x as int, cand.pos.y as int, 0)
                % 48;
            lemma_mod_bound(
                field_value(seed_plus(cand.seed, 1), cand.pos.x as int, cand.pos.y as int, 0),
                48,
            );
            assert(0 <= h * ((SCALE as int) - cs.chaos) <= 470000) by (nonlinear_arith)
                requires
                    0 <= h < 48,
                    0 <= (SCALE as int) - cs.chaos <= SCALE,
            ;
        },
        None => {},
    }
}

/// The fold is bounded too.
pub proof fn lemma_cliff_fold_bound(
    w: WorldIndex,
    col: ColumnAttributes,
    wtx: int,
    wty: int,
    n: int,
)
    requires
        w.wf(),
        col.wf(),
        n <= 9,
    ensures
        0 <= cliff_fold(w, col, wtx, wty, n) <= 2 * ALT_LIM + 470000,
    decreases n,
{
    if n > 0 {
        lemma_cliff_fold_bound(w, col, wtx, wty, n - 1);
        lemma_cliff_contrib_bound(w, col, col.close_cliffs[n - 1], wtx, wty);
    }
}

/// Executable cliff height: fold the nine candidate neighbors, sampling
/// each neighbor's column through the cache.
pub fn cliff_height(
    w: &WorldIndex,
    cache: &mut ColumnCache,
    col: &ColumnAttributes,
    wtx: i64,
    wty: i64,
) -> (r: i64)
    requires
        w.wf(),
        old(cache).wf(*w),
        col.wf(),
        -TURB_POS_LIM <= wtx <= TURB_POS_LIM,
        -TURB_POS_LIM <= wty <= TURB_POS_LIM,
    ensures
        final(cache).wf(*w),
        r == cliff_fold(*w, *col, wtx as int, wty as int, 9),
        0 <= r <= 2 * ALT_LIM + 470000,
{
    proof {
        lemma_cliff_fold_bound(*w, *col, wtx as int, wty as int, 9);
    }
    let mut best: i64 = 0;
    let mut i: usize = 0;
    while i < 9
        invariant
            w.wf(),
            cache.wf(*w),
            col.wf(),
            -TURB_POS_LIM <= wtx <= TURB_POS_LIM,
            -TURB_POS_LIM <= wty <= TURB_POS_LIM,
            i <= 9,
            best == cliff_fold(*w, *col, wtx as int, wty as int, i as int),
            0 <= best <= 2 * ALT_LIM + 470000,
        decreases 9 - i,
    {
        let cand = col.close_cliffs[i];
        let contribution = cliff_contrib_exec(w, cache, col, cand, wtx, wty);
        proof {
            lemma_cliff_fold_bound(*w, *col, wtx as int, wty as int, i as int + 1);
        }
        best = max_i64(best, contribution);
        i = i + 1;
    }
    best
}

/// Executable single-neighbor contribution.
fn cliff_contrib_exec(
    w: &WorldIndex,
    cache: &mut ColumnCache,
    col: &ColumnAttributes,
    cand: StructureCandidate,
    wtx: i64,
    wty: i64,
) -> (r: i64)
    requires
        w.wf(),
        old(cache).wf(*w),
        col.wf(),
        -TURB_POS_LIM <= wtx <= TURB_POS_LIM,
        -TURB_POS_LIM <= wty <= TURB_POS_LIM,
    ensures
        final(cache).wf(*w),
        r == cliff_contrib(*w, *col, cand, wtx as int, wty as int),
{
    let cs = match cache.get(w, cand.pos) {
        Some(cs) => cs,
        None => {
            return 0;
        },
    };
    if !(cs.is_cliffs && cs.spawn_rate > 5000) {
        return 0;
    }
    proof {
        assert(cs.wf());
        lemma_mod_bound(
            field_value(seed_plus(cand.seed, 1), cand.pos.x as int, cand.pos.y as int, 0) as int,
            48,
        );
        lemma_mod_bound(
            field_value(seed_plus(cand.seed, 2), cand.pos.x as int, cand.pos.y as int, 0) as int,
            48,
        );
    }
    let cliff_pos3d = Vec3::new(cand.pos.x, cand.pos.y, 0);
    let h = (crate::field::RandomField::new(cand.seed.wrapping_add(1)).get(cliff_pos3d) % 48)
        as i64;
    let radius = (crate::field::RandomField::new(cand.seed.wrapping_add(2)).get(cliff_pos3d) % 48
        + 8) as i64;
    let dx: i64 = (cand.pos.x as i64) * SCALE - wtx;
    let dy: i64 = (cand.pos.y as i64) * SCALE - wty;
    let near = within_radius(dx, dy, radius);
    if near {
        proof {
            assert(0 <= h * (SCALE - cs.chaos) <= 470000) by (nonlinear_arith)
                requires
                    0 <= h < 48,
                    0 <= SCALE - cs.chaos <= SCALE,
            ;
        }
        cs.alt + h * (SCALE - cs.chaos) + col.cliff_hill
    } else {
        0
    }
}

/// Whether `(dx, dy)` lies strictly inside the circle of `radius` blocks
/// (the offsets are fixed-point, so the squared comparison carries two
/// factors of `SCALE` on the radius side).  The far guard keeps the squares
/// inside `i64` without changing the answer.
fn within_radius(dx: i64, dy: i64, radius: i64) -> (r: bool)
    requires
        8 <= radius <= 55,
        -0x7fff_ffff_ffff_ffff <= dx,
        -0x7fff_ffff_ffff_ffff <= dy,
    ensures
        r == (dx * dx + dy * dy < radius * radius * (SCALE as int) * (SCALE as int)),
{
    let rs: i64 = radius * SCALE;
    proof {
        assert(rs * rs == radius * radius * (SCALE as int) * (SCALE as int)) by (nonlinear_arith)
            requires
                rs == radius * SCALE,
        ;
    }
    if dx > rs || dx < -rs || dy > rs || dy < -rs {
        proof {
            assert(dx * dx + dy * dy >= rs * rs) by (nonlinear_arith)
                requires
                    dx > rs || dx < -rs || dy > rs || dy < -rs,
                    rs >= 0,
            ;
        }
        false
    } else {
        proof {
            assert(0 <= dx * dx <= 302_500_000_000 && 0 <= dy * dy <= 302_500_000_000 && 0 <= rs
                * rs <= 302_500_000_000) by (nonlinear_arith)
                requires
                    -rs <= dx <= rs,
                    -rs <= dy <= rs,
                    0 <= rs <= 550_000,
            ;
        }
        dx * dx + dy * dy < rs * rs
    }
}

/// The synthesized heights at a position: whether the short-circuit
/// underground test fired, the terrain height, and the water height.
pub open spec fn height_water_at(w: WorldIndex, col: ColumnAttributes, p: Vec3) -> (bool, int, int) {
    let zf = (p.z as int) * (SCALE as int);
    if zf < col.alt - 64 * col.chaos {
        (true, col.alt as int, col.water_level as int)
    } else {
        let wp = warp_at(w.seed, col.chaos as int, p);
        let water = max_spec(col.water_level + wp, w.sea_level as int);
        if zf < col.alt + wp - 10 * (SCALE as int) {
            (false, col.alt + wp, water)
        } else {
            let wtx = (p.x as int) * (SCALE as int) + turb_x_at(w.seed, p.x as int, p.y as int);
            let wty = (p.y as int) * (SCALE as int) + turb_y_at(w.seed, p.x as int, p.y as int);
            (false, max_spec(col.alt + wp, cliff_fold(w, col, wtx, wty, 9)), water)
        }
    }
}

/// Executable height synthesis.
pub fn height_water(
    w: &WorldIndex,
    cache: &mut ColumnCache,
    col: &ColumnAttributes,
    p: Vec3,
) -> (r: (bool, i64, i64))
    requires
        w.wf(),
        old(cache).wf(*w),
        col.wf(),
    ensures
        final(cache).wf(*w),
        (r.0, r.1 as int, r.2 as int) == height_water_at(*w, *col, p),
        -HEIGHT_LIM <= r.1 <= HEIGHT_LIM,
        -HEIGHT_LIM <= r.2 <= HEIGHT_LIM,
{
    let zf: i64 = (p.z as i64) * SCALE;
    if zf < col.alt - 64 * col.chaos {
        (true, col.alt, col.water_level)
    } else {
        let wp = warp(w.seed, col.chaos, p);
        let water = max_i64(col.water_level + wp, w.sea_level);
        if zf < col.alt + wp - 10 * SCALE {
            (false, col.alt + wp, water)
        } else {
            let t = turb(w.seed, p.x, p.y);
            let wtx: i64 = (p.x as i64) * SCALE + t.0;
            let wty: i64 = (p.y as i64) * SCALE + t.1;
            let ch = cliff_height(w, cache, col, wtx, wty);
            (false, max_i64(col.alt + wp, ch), water)
        }
    }
}

} // verus!
