//! A seeded pseudo-random field: a pure integer hash from a 3-D block
//! position to a 32-bit value.  Every consumer of randomness in the
//! pipeline (cliff heights and radii, rock mottling, structure selection and
//! orientation) draws from such a field, so the whole engine stays a pure
//! function of the world seed and the queried position.

use vstd::prelude::*;

verus! {

use crate::geom::Vec3;

/// One past the largest 32-bit value; the hash state is kept below this.
pub const HASH_MOD: u64 = 0x1_0000_0000;

/// Multiplier folded in with the x coordinate.
pub const HASH_MUL_X: u64 = 0x9E3779B1;

/// Multiplier folded in with the y coordinate.
pub const HASH_MUL_Y: u64 = 0x85EBCA77;

/// Multiplier folded in with the z coordinate.
pub const HASH_MUL_Z: u64 = 0xC2B2AE3D;

/// Constant added in the final squaring round.
pub const HASH_FIN: u64 = 0x27D4EB2F;

/// A signed coordinate shifted into `[0, 2^32)`.
pub open spec fn cell_key(c: int) -> int {
    c + 0x8000_0000
}

/// One mixing round: multiply the state and fold a value in, mod 2^32.
pub open spec fn mix_spec(h: int, p: int, k: int) -> int {
    (h * p + k) % (HASH_MOD as int)
}

/// The field's value at `(x, y, z)`: three mixing rounds, one for each
/// coordinate, then a squaring round for non-linearity.
pub open spec fn field_value(seed: u32, x: int, y: int, z: int) -> int {
    let h1 = mix_spec(seed as int, HASH_MUL_X as int, cell_key(x));
    let h2 = mix_spec(h1, HASH_MUL_Y as int, cell_key(y));
    let h3 = mix_spec(h2, HASH_MUL_Z as int, cell_key(z));
    mix_spec(h3, h3, HASH_FIN as int)
}

/// The field's values are 32-bit.
pub proof fn lemma_field_value_bound(seed: u32, x: int, y: int, z: int)
    ensures
        0 <= field_value(seed, x, y, z) < HASH_MOD,
{
    vstd::arithmetic::div_mod::lemma_mod_bound(
        mix_spec(
            mix_spec(
                mix_spec(seed as int, HASH_MUL_X as int, cell_key(x)),
                HASH_MUL_Y as int,
                cell_key(y),
            ),
            HASH_MUL_Z as int,
            cell_key(z),
        ) * mix_spec(
            mix_spec(
                mix_spec(seed as int, HASH_MUL_X as int, cell_key(x)),
                HASH_MUL_Y as int,
                cell_key(y),
            ),
            HASH_MUL_Z as int,
            cell_key(z),
        ) + HASH_FIN as int,
        HASH_MOD as int,
    );
}

/// One executable mixing round.
fn mix(h: u64, p: u64, k: u64) -> (r: u64)
    requires
        h < HASH_MOD,
        p < HASH_MOD,
        k < HASH_MOD,
    ensures
        r == mix_spec(h as int, p as int, k as int),
        r < HASH_MOD,
{
    proof {
        assert(h * p + k < 0xffff_ffff_ffff_ffff) by (nonlinear_arith)
            requires
                h < 0x1_0000_0000u64,
                p < 0x1_0000_0000u64,
                k < 0x1_0000_0000u64,
        ;
        vstd::arithmetic::div_mod::lemma_mod_bound((h * p + k) as int, HASH_MOD as int);
    }
    (h * p + k) % HASH_MOD
}

/// A signed coordinate shifted into `[0, 2^32)`, executable.
fn key_of(c: i32) -> (r: u64)
    ensures
        r == cell_key(c as int),
{
    ((c as i64) + 0x8000_0000) as u64
}

/// A pseudo-random field seeded once and then queried at positions.
#[derive(Copy, Clone, Debug)]
pub struct RandomField {
    pub seed: u32,
}

impl RandomField {
    pub fn new(seed: u32) -> (r: RandomField)
        ensures
            r.seed == seed,
    {
        RandomField { seed }
    }

    /// The field's value at a position.
    pub fn get(&self, pos: Vec3) -> (r: u32)
        ensures
            r == field_value(self.seed, pos.x as int, pos.y as int, pos.z as int),
    {
        let h1 = mix(self.seed as u64, HASH_MUL_X, key_of(pos.x));
        let h2 = mix(h1, HASH_MUL_Y, key_of(pos.y));
        let h3 = mix(h2, HASH_MUL_Z, key_of(pos.z));
        let h4 = mix(h3, h3, HASH_FIN);
        h4 as u32
    }
}

} // verus!
