//! Decimal fixed-point scalars.
//!
//! Every terrain scalar (altitude, chaos, water level, noise value) is an
//! `i64` carrying its value times [`SCALE`], so one whole block is `10000`
//! and `0.1` is `1000`.  All arithmetic on these scalars is exact integer
//! arithmetic; divisions are floor divisions on non-negative operands so the
//! executable result and the mathematical statement coincide.

use vstd::prelude::*;

verus! {

use vstd::arithmetic::div_mod::{
    lemma_fundamental_div_mod,
    lemma_fundamental_div_mod_converse,
    lemma_div_is_ordered,
    lemma_div_multiples_vanish,
    lemma_div_pos_is_pos,
    lemma_mod_bound,
};

/// Fixed-point unit: the number standing for 1.0.
pub const SCALE: i64 = 10000;

/// Largest magnitude (in fixed-point units) that an altitude-like scalar may
/// take; keeps every derived sum comfortably inside `i64`.
pub const ALT_LIM: i64 = 1_000_000_000_000;

/// Floor division of `a` by a positive `b`, exactly the mathematical
/// (Euclidean) quotient.
pub fn div_floor(a: i64, b: i64) -> (r: i64)
    requires
        b > 0,
        a > i64::MIN,
    ensures
        r == a as int / b as int,
        a >= 0 ==> 0 <= r <= a,
        a < 0 ==> a <= r <= 0,
{
    if a >= 0 {
        let q: u64 = (a as u64) / (b as u64);
        proof {
            lemma_div_pos_is_pos(a as int, b as int);
            lemma_div_nonincreasing_local(a as int, b as int);
        }
        q as i64
    } else {
        let n: i64 = -a - 1;
        let nq: u64 = (n as u64) / (b as u64);
        proof {
            lemma_div_pos_is_pos(n as int, b as int);
            lemma_div_nonincreasing_local(n as int, b as int);
        }
        let q: i64 = nq as i64;
        proof {
            let bi = b as int;
            let ni = n as int;
            let m = ni % bi;
            lemma_fundamental_div_mod(ni, bi);
            lemma_mod_bound(ni, bi);
            assert(q == ni / bi);
            assert(a as int == (-q - 1) * bi + (bi - m - 1)) by (nonlinear_arith)
                requires
                    ni == bi * (ni / bi) + m,
                    q == ni / bi,
                    a == -ni - 1,
            ;
            lemma_fundamental_div_mod_converse(a as int, bi, -q - 1, bi - m - 1);
        }
        -q - 1
    }
}

/// Division of a non-negative `a` by a positive `b`; with these signs the
/// machine quotient is the mathematical one.
pub fn div_nonneg(a: i64, b: i64) -> (r: i64)
    requires
        0 <= a,
        0 < b,
    ensures
        r == a as int / b as int,
        0 <= r <= a,
{
    proof {
        lemma_div_is_ordered(0, a as int, b as int);
        lemma_div_nonincreasing_local(a as int, b as int);
    }
    ((a as u64) / (b as u64)) as i64
}

proof fn lemma_div_nonincreasing_local(x: int, d: int)
    requires
        0 <= x,
        1 <= d,
    ensures
        x / d <= x,
{
    vstd::arithmetic::div_mod::lemma_div_nonincreasing(x, d);
}

/// The floor of the real square root of `n`.
pub open spec fn sqrt_floor(n: nat) -> nat
    decreases n,
{
    if n == 0 {
        0
    } else {
        let s = sqrt_floor((n - 1) as nat);
        if (s + 1) * (s + 1) <= n {
            s + 1
        } else {
            s
        }
    }
}

/// `sqrt_floor(n)` really is the floor of the square root.
pub proof fn lemma_sqrt_floor_bounds(n: nat)
    ensures
        sqrt_floor(n) * sqrt_floor(n) <= n,
        n < (sqrt_floor(n) + 1) * (sqrt_floor(n) + 1),
    decreases n,
{
    if n == 0 {
        assert(sqrt_floor(n) == 0);
        assert(sqrt_floor(n) * sqrt_floor(n) <= n) by (nonlinear_arith)
            requires
                n == 0,
                sqrt_floor(n) == 0,
        ;
        assert(n < (sqrt_floor(n) + 1) * (sqrt_floor(n) + 1)) by (nonlinear_arith)
            requires
                n == 0,
                sqrt_floor(n) == 0,
        ;
    } else {
        let s = sqrt_floor((n - 1) as nat);
        lemma_sqrt_floor_bounds((n - 1) as nat);
        assert(s * s <= n - 1);
        assert(n - 1 < (s + 1) * (s + 1));
        if (s + 1) * (s + 1) <= n {
            assert(sqrt_floor(n) == s + 1);
            assert(sqrt_floor(n) * sqrt_floor(n) <= n) by (nonlinear_arith)
                requires
                    sqrt_floor(n) == s + 1,
                    (s + 1) * (s + 1) <= n,
            ;
            assert(n < (sqrt_floor(n) + 1) * (sqrt_floor(n) + 1)) by (nonlinear_arith)
                requires
                    sqrt_floor(n) == s + 1,
                    n <= (s + 1) * (s + 1),
            ;
        } else {
            assert(sqrt_floor(n) == s);
            assert(sqrt_floor(n) * sqrt_floor(n) <= n) by (nonlinear_arith)
                requires
                    sqrt_floor(n) == s,
                    s * s <= n,
            ;
            assert(n < (sqrt_floor(n) + 1) * (sqrt_floor(n) + 1)) by (nonlinear_arith)
                requires
                    sqrt_floor(n) == s,
                    n < (s + 1) * (s + 1),
            ;
        }
    }
}

/// Any `r` squeezed between consecutive squares is the floor square root.
pub proof fn lemma_sqrt_floor_unique(n: nat, r: nat)
    requires
        r * r <= n,
        n < (r + 1) * (r + 1),
    ensures
        r == sqrt_floor(n),
{
    let s = sqrt_floor(n);
    lemma_sqrt_floor_bounds(n);
    assert(r == s) by (nonlinear_arith)
        requires
            r * r <= n,
            n < (r + 1) * (r + 1),
            s * s <= n,
            n < (s + 1) * (s + 1),
    ;
}

/// Floor integer square root, by counting up; the inputs this library feeds
/// it are at most `SCALE * SCALE`.
pub fn isqrt(x: u64) -> (r: u64)
    requires
        x <= 0x1_0000_0000,
    ensures
        r == sqrt_floor(x as nat),
        r * r <= x,
{
    let mut r: u64 = 0;
    loop
        invariant
            x <= 0x1_0000_0000,
            r * r <= x,
            r <= 0x1_0000,
        ensures
            r * r <= x < (r + 1) * (r + 1),
        decreases x - r * r,
    {
        let next: u64 = r + 1;
        proof {
            assert(next * next <= 0x1_0002_0001) by (nonlinear_arith)
                requires
                    next <= 0x1_0001u64,
            ;
        }
        if next * next <= x {
            proof {
                assert(next <= 0x1_0000) by (nonlinear_arith)
                    requires
                        next * next <= 0x1_0000_0000int,
                        next >= 0,
                ;
                assert(next * next > r * r) by (nonlinear_arith)
                    requires
                        next == r + 1,
                        r >= 0,
                ;
            }
            r = next;
        } else {
            break;
        }
    }
    proof {
        lemma_sqrt_floor_unique(x as nat, r as nat);
    }
    r
}

/// Linear interpolation between fixed-point fractions `a` and `b` (both in
/// `[0, SCALE]`) by the fraction `t` (also in `[0, SCALE]`).
pub open spec fn lerp_unit_spec(a: int, b: int, t: int) -> int {
    (a * (SCALE - t) + b * t) / (SCALE as int)
}

/// The interpolant of two unit fractions is a unit fraction.
pub proof fn lemma_lerp_unit_bounds(a: int, b: int, t: int)
    requires
        0 <= a <= SCALE,
        0 <= b <= SCALE,
        0 <= t <= SCALE,
    ensures
        0 <= lerp_unit_spec(a, b, t) <= SCALE,
        0 <= a * (SCALE - t) <= SCALE * SCALE,
        0 <= b * t <= SCALE * SCALE,
{
    assert(
        0 <= a * (SCALE - t) + b * t <= SCALE * SCALE
        && 0 <= a * (SCALE - t) <= SCALE * SCALE
        && 0 <= b * t <= SCALE * SCALE
    ) by (nonlinear_arith)
        requires
            0 <= a <= SCALE,
            0 <= b <= SCALE,
            0 <= t <= SCALE,
    ;
    let n = a * (SCALE - t) + b * t;
    lemma_div_is_ordered(0, n, SCALE as int);
    lemma_div_is_ordered(n, SCALE * SCALE, SCALE as int);
    lemma_div_multiples_vanish(SCALE as int, SCALE as int);
}

/// Executable unit-fraction interpolation.
pub fn lerp_unit(a: i64, b: i64, t: i64) -> (r: i64)
    requires
        0 <= a <= SCALE,
        0 <= b <= SCALE,
        0 <= t <= SCALE,
    ensures
        r == lerp_unit_spec(a as int, b as int, t as int),
        0 <= r <= SCALE,
{
    proof {
        lemma_lerp_unit_bounds(a as int, b as int, t as int);
    }
    let n: i64 = a * (SCALE - t) + b * t;
    div_nonneg(n, SCALE)
}

/// Clamp `x` into `[lo, hi]`.
pub open spec fn clamp_spec(x: int, lo: int, hi: int) -> int {
    if x < lo {
        lo
    } else if x > hi {
        hi
    } else {
        x
    }
}

/// Executable clamp.
pub fn clamp(x: i64, lo: i64, hi: i64) -> (r: i64)
    requires
        lo <= hi,
    ensures
        r == clamp_spec(x as int, lo as int, hi as int),
{
    if x < lo {
        lo
    } else if x > hi {
        hi
    } else {
        x
    }
}

/// Absolute value.
pub open spec fn abs_spec(x: int) -> int {
    if x >= 0 {
        x
    } else {
        -x
    }
}

/// Executable absolute value.
pub fn abs_i64(x: i64) -> (r: i64)
    requires
        x > i64::MIN,
    ensures
        r == abs_spec(x as int),
        r >= 0,
{
    if x >= 0 {
        x
    } else {
        -x
    }
}

/// Squaring a unit fraction (or its negation) and dividing by `SCALE`
/// yields a unit fraction.
pub proof fn lemma_unit_sq(x: int)
    requires
        -SCALE <= x <= SCALE,
    ensures
        0 <= x * x <= SCALE * SCALE,
        0 <= (x * x) / (SCALE as int) <= SCALE,
{
    assert(0 <= x * x <= SCALE * SCALE) by (nonlinear_arith)
        requires
            -SCALE <= x <= SCALE,
    ;
    lemma_div_is_ordered(0, x * x, SCALE as int);
    lemma_div_is_ordered(x * x, SCALE * SCALE, SCALE as int);
    lemma_div_multiples_vanish(SCALE as int, SCALE as int);
}

/// The larger of two fixed-point scalars.
pub open spec fn max_spec(a: int, b: int) -> int {
    if a >= b {
        a
    } else {
        b
    }
}

/// Executable maximum.
pub fn max_i64(a: i64, b: i64) -> (r: i64)
    ensures
        r == max_spec(a as int, b as int),
{
    if a >= b {
        a
    } else {
        b
    }
}

} // verus!
