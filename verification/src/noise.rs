//! Smooth lattice noise over block positions.
//!
//! A noise field hashes every lattice cell corner to a unit fraction in
//! `[0, SCALE]` and interpolates linearly between corners, so it is a total,
//! deterministic function of seed and position with a proved range.  The
//! domain-warp field samples a 3-D lattice with a 150-block period; the two
//! turbulence fields sample 2-D lattices with a 48-block period.

use vstd::prelude::*;

verus! {

use crate::field::{field_value, lemma_field_value_bound, RandomField};
use crate::fixed::{div_floor, div_nonneg, lerp_unit, lerp_unit_spec, SCALE};
use crate::geom::Vec3;
use vstd::arithmetic::div_mod::{
    lemma_div_is_ordered,
    lemma_div_is_ordered_by_denominator,
    lemma_div_multiples_vanish,
    lemma_fundamental_div_mod,
    lemma_mod_bound,
};

/// Lattice period, in blocks, of the 3-D domain-warp noise field.
pub const WARP_PERIOD: i64 = 150;

/// Lattice period, in blocks, of the 2-D turbulence noise fields.
pub const TURB_PERIOD: i64 = 48;

/// The corner value of a lattice cell: a hash mapped into `[0, SCALE]`.
pub open spec fn lattice_value(seed: u32, cx: int, cy: int, cz: int) -> int {
    field_value(seed, cx, cy, cz) % (SCALE + 1)
}

proof fn lemma_lattice_bound(seed: u32, cx: int, cy: int, cz: int)
    ensures
        0 <= lattice_value(seed, cx, cy, cz) <= SCALE,
{
    lemma_field_value_bound(seed, cx, cy, cz);
    lemma_mod_bound(field_value(seed, cx, cy, cz), (SCALE + 1) as int);
}

fn lattice_at(seed: u32, cx: i32, cy: i32, cz: i32) -> (r: i64)
    ensures
        r == lattice_value(seed, cx as int, cy as int, cz as int),
        0 <= r <= SCALE,
{
    proof {
        lemma_lattice_bound(seed, cx as int, cy as int, cz as int);
        lemma_field_value_bound(seed, cx as int, cy as int, cz as int);
    }
    let h = RandomField::new(seed).get(Vec3::new(cx, cy, cz));
    (h % 10001) as i64
}

/// Which lattice cell a coordinate falls in.
pub open spec fn cell_of(p: int, period: int) -> int {
    p / period
}

/// How far into its cell a coordinate sits, as a unit fraction.
pub open spec fn frac_of(p: int, period: int) -> int {
    ((p % period) * SCALE) / period
}

/// Cell index and intra-cell fraction of one coordinate.
fn cell_frac(p: i32, period: i64) -> (r: (i32, i64))
    requires
        2 <= period <= 1000,
    ensures
        r.0 == cell_of(p as int, period as int),
        -0x8000_0000 <= r.0 <= 0x4000_0000,
        r.1 == frac_of(p as int, period as int),
        0 <= r.1 <= SCALE,
{
    let c64 = div_floor(p as i64, period);
    proof {
        if p >= 0 {
            lemma_div_is_ordered_by_denominator(p as int, 2, period as int);
            lemma_div_is_ordered(p as int, 0x7fff_ffff, 2);
        }
        lemma_fundamental_div_mod(p as int, period as int);
        lemma_mod_bound(p as int, period as int);
        assert(c64 * period == period * c64) by (nonlinear_arith);
    }
    let c = c64 as i32;
    let rem: i64 = (p as i64) - c64 * period;
    let rem_scaled: i64 = rem * SCALE;
    let t = div_nonneg(rem_scaled, period);
    proof {
        lemma_div_is_ordered(rem_scaled as int, period * SCALE, period as int);
        lemma_div_multiples_vanish(SCALE as int, period as int);
    }
    (c, t)
}

/// Intra-cell fractions are unit fractions.
pub proof fn lemma_frac_bound(p: int, period: int)
    requires
        1 <= period,
    ensures
        0 <= frac_of(p, period) <= SCALE,
{
    lemma_mod_bound(p, period);
    let rem = p % period;
    lemma_div_is_ordered(0, rem * SCALE, period);
    assert(rem * SCALE <= period * SCALE) by (nonlinear_arith)
        requires
            rem <= period,
            SCALE > 0,
    ;
    lemma_div_is_ordered(rem * SCALE, period * SCALE, period);
    lemma_div_multiples_vanish(SCALE as int, period);
}

/// The 3-D noise field's value: trilinear interpolation of the eight corner
/// values of the cell containing the position.
pub open spec fn noise3_value(seed: u32, x: int, y: int, z: int, period: int) -> int {
    let cx = cell_of(x, period);
    let cy = cell_of(y, period);
    let cz = cell_of(z, period);
    let tx = frac_of(x, period);
    let ty = frac_of(y, period);
    let tz = frac_of(z, period);
    let x00 = lerp_unit_spec(lattice_value(seed, cx, cy, cz), lattice_value(seed, cx + 1, cy, cz), tx);
    let x10 = lerp_unit_spec(lattice_value(seed, cx, cy + 1, cz), lattice_value(seed, cx + 1, cy + 1, cz), tx);
    let x01 = lerp_unit_spec(lattice_value(seed, cx, cy, cz + 1), lattice_value(seed, cx + 1, cy, cz + 1), tx);
    let x11 = lerp_unit_spec(lattice_value(seed, cx, cy + 1, cz + 1), lattice_value(seed, cx + 1, cy + 1, cz + 1), tx);
    let y0 = lerp_unit_spec(x00, x10, ty);
    let y1 = lerp_unit_spec(x01, x11, ty);
    lerp_unit_spec(y0, y1, tz)
}

/// The 3-D field's values are unit fractions.
pub proof fn lemma_noise3_bounds(seed: u32, x: int, y: int, z: int, period: int)
    requires
        1 <= period,
    ensures
        0 <= noise3_value(seed, x, y, z, period) <= SCALE,
{
    let cx = cell_of(x, period);
    let cy = cell_of(y, period);
    let cz = cell_of(z, period);
    let tx = frac_of(x, period);
    let ty = frac_of(y, period);
    let tz = frac_of(z, period);
    lemma_frac_bound(x, period);
    lemma_frac_bound(y, period);
    lemma_frac_bound(z, period);
    lemma_lattice_bound(seed, cx, cy, cz);
    lemma_lattice_bound(seed, cx + 1, cy, cz);
    lemma_lattice_bound(seed, cx, cy + 1, cz);
    lemma_lattice_bound(seed, cx + 1, cy + 1, cz);
    lemma_lattice_bound(seed, cx, cy, cz + 1);
    lemma_lattice_bound(seed, cx + 1, cy, cz + 1);
    lemma_lattice_bound(seed, cx, cy + 1, cz + 1);
    lemma_lattice_bound(seed, cx + 1, cy + 1, cz + 1);
    let x00 = lerp_unit_spec(lattice_value(seed, cx, cy, cz), lattice_value(seed, cx + 1, cy, cz), tx);
    let x10 = lerp_unit_spec(lattice_value(seed, cx, cy + 1, cz), lattice_value(seed, cx + 1, cy + 1, cz), tx);
    let x01 = lerp_unit_spec(lattice_value(seed, cx, cy, cz + 1), lattice_value(seed, cx + 1, cy, cz + 1), tx);
    let x11 = lerp_unit_spec(lattice_value(seed, cx, cy + 1, cz + 1), lattice_value(seed, cx + 1, cy + 1, cz + 1), tx);
    crate::fixed::lemma_lerp_unit_bounds(lattice_value(seed, cx, cy, cz), lattice_value(seed, cx + 1, cy, cz), tx);
    crate::fixed::lemma_lerp_unit_bounds(lattice_value(seed, cx, cy + 1, cz), lattice_value(seed, cx + 1, cy + 1, cz), tx);
    crate::fixed::lemma_lerp_unit_bounds(lattice_value(seed, cx, cy, cz + 1), lattice_value(seed, cx + 1, cy, cz + 1), tx);
    crate::fixed::lemma_lerp_unit_bounds(lattice_value(seed, cx, cy + 1, cz + 1), lattice_value(seed, cx + 1, cy + 1, cz + 1), tx);
    let y0 = lerp_unit_spec(x00, x10, ty);
    let y1 = lerp_unit_spec(x01, x11, ty);
    crate::fixed::lemma_lerp_unit_bounds(x00, x10, ty);
    crate::fixed::lemma_lerp_unit_bounds(x01, x11, ty);
    crate::fixed::lemma_lerp_unit_bounds(y0, y1, tz);
}

/// The 2-D field's values are unit fractions.
pub proof fn lemma_noise2_bounds(seed: u32, x: int, y: int, period: int)
    requires
        1 <= period,
    ensures
        0 <= noise2_value(seed, x, y, period) <= SCALE,
{
    let cx = cell_of(x, period);
    let cy = cell_of(y, period);
    let tx = frac_of(x, period);
    let ty = frac_of(y, period);
    lemma_frac_bound(x, period);
    lemma_frac_bound(y, period);
    lemma_lattice_bound(seed, cx, cy, 0);
    lemma_lattice_bound(seed, cx + 1, cy, 0);
    lemma_lattice_bound(seed, cx, cy + 1, 0);
    lemma_lattice_bound(seed, cx + 1, cy + 1, 0);
    let x0 = lerp_unit_spec(lattice_value(seed, cx, cy, 0), lattice_value(seed, cx + 1, cy, 0), tx);
    let x1 = lerp_unit_spec(lattice_value(seed, cx, cy + 1, 0), lattice_value(seed, cx + 1, cy + 1, 0), tx);
    crate::fixed::lemma_lerp_unit_bounds(lattice_value(seed, cx, cy, 0), lattice_value(seed, cx + 1, cy, 0), tx);
    crate::fixed::lemma_lerp_unit_bounds(lattice_value(seed, cx, cy + 1, 0), lattice_value(seed, cx + 1, cy + 1, 0), tx);
    crate::fixed::lemma_lerp_unit_bounds(x0, x1, ty);
}

/// Executable 3-D noise.
pub fn noise3(seed: u32, pos: Vec3, period: i64) -> (r: i64)
    requires
        2 <= period <= 1000,
    ensures
        r == noise3_value(seed, pos.x as int, pos.y as int, pos.z as int, period as int),
        0 <= r <= SCALE,
{
    let (cx, tx) = cell_frac(pos.x, period);
    let (cy, ty) = cell_frac(pos.y, period);
    let (cz, tz) = cell_frac(pos.z, period);
    let v000 = lattice_at(seed, cx, cy, cz);
    let v100 = lattice_at(seed, cx + 1, cy, cz);
    let v010 = lattice_at(seed, cx, cy + 1, cz);
    let v110 = lattice_at(seed, cx + 1, cy + 1, cz);
    let v001 = lattice_at(seed, cx, cy, cz + 1);
    let v101 = lattice_at(seed, cx + 1, cy, cz + 1);
    let v011 = lattice_at(seed, cx, cy + 1, cz + 1);
    let v111 = lattice_at(seed, cx + 1, cy + 1, cz + 1);
    let x00 = lerp_unit(v000, v100, tx);
    let x10 = lerp_unit(v010, v110, tx);
    let x01 = lerp_unit(v001, v101, tx);
    let x11 = lerp_unit(v011, v111, tx);
    let y0 = lerp_unit(x00, x10, ty);
    let y1 = lerp_unit(x01, x11, ty);
    lerp_unit(y0, y1, tz)
}

/// The 2-D noise field's value: bilinear interpolation on a fixed lattice
/// plane.
pub open spec fn noise2_value(seed: u32, x: int, y: int, period: int) -> int {
    let cx = cell_of(x, period);
    let cy = cell_of(y, period);
    let tx = frac_of(x, period);
    let ty = frac_of(y, period);
    let x0 = lerp_unit_spec(lattice_value(seed, cx, cy, 0), lattice_value(seed, cx + 1, cy, 0), tx);
    let x1 = lerp_unit_spec(lattice_value(seed, cx, cy + 1, 0), lattice_value(seed, cx + 1, cy + 1, 0), tx);
    lerp_unit_spec(x0, x1, ty)
}

/// Executable 2-D noise.
pub fn noise2(seed: u32, x: i32, y: i32, period: i64) -> (r: i64)
    requires
        2 <= period <= 1000,
    ensures
        r == noise2_value(seed, x as int, y as int, period as int),
        0 <= r <= SCALE,
{
    let (cx, tx) = cell_frac(x, period);
    let (cy, ty) = cell_frac(y, period);
    let v00 = lattice_at(seed, cx, cy, 0);
    let v10 = lattice_at(seed, cx + 1, cy, 0);
    let v01 = lattice_at(seed, cx, cy + 1, 0);
    let v11 = lattice_at(seed, cx + 1, cy + 1, 0);
    let x0 = lerp_unit(v00, v10, tx);
    let x1 = lerp_unit(v01, v11, tx);
    lerp_unit(x0, x1, ty)
}

} // verus!
