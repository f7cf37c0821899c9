//! Voxels and voxel colors, and the mapping from a structure template's
//! symbolic block roles to concrete voxels.

use vstd::prelude::*;

verus! {

use crate::field::field_value;
use crate::fixed::{div_nonneg, lerp_unit_spec, SCALE};
use crate::geom::{Vec2, Vec3};
use vstd::arithmetic::div_mod::{
    lemma_div_is_ordered,
    lemma_div_multiples_vanish,
    lemma_mod_bound,
};

/// An 8-bit RGB color.
#[derive(Copy, Clone, Debug, PartialEq, Eq, Hash)]
pub struct Rgb {
    pub r: u8,
    pub g: u8,
    pub b: u8,
}

impl Rgb {
    pub fn new(r: u8, g: u8, b: u8) -> (c: Rgb)
        ensures
            c == (Rgb { r, g, b }),
    {
        Rgb { r, g, b }
    }
}

/// A single voxel: a material kind plus a color.  Kind `0` is air; the
/// terrain layers use `1` for soft material and `2` for hard stone.
#[derive(Copy, Clone, Debug, PartialEq, Eq, Hash)]
pub struct Block {
    pub kind: u8,
    pub color: Rgb,
}

impl Block {
    /// The empty (air) voxel.
    pub open spec fn spec_empty() -> Block {
        Block { kind: 0, color: Rgb { r: 0, g: 0, b: 0 } }
    }

    #[verifier::when_used_as_spec(spec_empty)]
    pub fn empty() -> (b: Block)
        ensures
            b == Block::spec_empty(),
    {
        Block { kind: 0, color: Rgb { r: 0, g: 0, b: 0 } }
    }

    pub fn new(kind: u8, color: Rgb) -> (b: Block)
        ensures
            b == (Block { kind, color }),
    {
        Block { kind, color }
    }

    /// Whether this voxel is air.
    pub open spec fn spec_is_empty(&self) -> bool {
        self.kind == 0
    }

    #[verifier::when_used_as_spec(spec_is_empty)]
    pub fn is_empty(&self) -> (r: bool)
        ensures
            r == self.spec_is_empty(),
    {
        self.kind == 0
    }
}

/// The color that underground material fades toward with depth, and that
/// rock decoration starts from.
pub open spec fn spec_stone_color() -> Rgb {
    Rgb { r: 240, g: 230, b: 220 }
}

#[verifier::when_used_as_spec(spec_stone_color)]
pub fn stone_color() -> (c: Rgb)
    ensures
        c == spec_stone_color(),
{
    Rgb { r: 240, g: 230, b: 220 }
}

/// The fixed water voxel of the ocean layer.
pub open spec fn spec_water_block() -> Block {
    Block { kind: 1, color: Rgb { r: 100, g: 150, b: 255 } }
}

#[verifier::when_used_as_spec(spec_water_block)]
pub fn water_block() -> (b: Block)
    ensures
        b == spec_water_block(),
{
    Block { kind: 1, color: Rgb { r: 100, g: 150, b: 255 } }
}

/// A named block role inside a structure template: either one of the leaf
/// palettes, colored by a seeded gradient at placement time, or a literal
/// block carried through verbatim.
#[derive(Copy, Clone, Debug, PartialEq, Eq, Hash)]
pub enum StructureBlock {
    TemperateLeaves,
    PineLeaves,
    PalmLeaves,
    Acacia,
    Block(Block),
}

/// Interpolation between two byte channels by a unit fraction.
pub proof fn lemma_lerp_byte_bounds(a: int, b: int, t: int)
    requires
        0 <= a <= 255,
        0 <= b <= 255,
        0 <= t <= SCALE,
    ensures
        0 <= lerp_unit_spec(a, b, t) <= 255,
        0 <= a * (SCALE - t) <= 255 * SCALE,
        0 <= b * t <= 255 * SCALE,
{
    assert(
        0 <= a * (SCALE - t) + b * t <= 255 * SCALE
        && 0 <= a * (SCALE - t) <= 255 * SCALE
        && 0 <= b * t <= 255 * SCALE
    ) by (nonlinear_arith)
        requires
            0 <= a <= 255,
            0 <= b <= 255,
            0 <= t <= SCALE,
    ;
    let n = a * (SCALE - t) + b * t;
    lemma_div_is_ordered(0, n, SCALE as int);
    lemma_div_is_ordered(n, 255 * SCALE, SCALE as int);
    lemma_div_multiples_vanish(255, SCALE as int);
}

/// Executable byte-channel interpolation.
pub fn lerp_byte(a: u8, b: u8, t: i64) -> (r: u8)
    requires
        0 <= t <= SCALE,
    ensures
        r == lerp_unit_spec(a as int, b as int, t as int),
{
    proof {
        lemma_lerp_byte_bounds(a as int, b as int, t as int);
    }
    let n: i64 = (a as i64) * (SCALE - t) + (b as i64) * t;
    div_nonneg(n, SCALE) as u8
}

/// Channel-wise color interpolation.
pub open spec fn lerp_rgb_spec(a: Rgb, b: Rgb, t: int) -> Rgb {
    Rgb {
        r: lerp_unit_spec(a.r as int, b.r as int, t) as u8,
        g: lerp_unit_spec(a.g as int, b.g as int, t) as u8,
        b: lerp_unit_spec(a.b as int, b.b as int, t) as u8,
    }
}

/// Executable color interpolation.
pub fn lerp_rgb(a: Rgb, b: Rgb, t: i64) -> (c: Rgb)
    requires
        0 <= t <= SCALE,
    ensures
        c == lerp_rgb_spec(a, b, t as int),
{
    proof {
        lemma_lerp_byte_bounds(a.r as int, b.r as int, t as int);
        lemma_lerp_byte_bounds(a.g as int, b.g as int, t as int);
        lemma_lerp_byte_bounds(a.b as int, b.b as int, t as int);
    }
    Rgb {
        r: lerp_byte(a.r, b.r, t),
        g: lerp_byte(a.g, b.g, t),
        b: lerp_byte(a.b, b.b, t),
    }
}

/// A hash value folded down to a unit fraction with 1/256 steps.
pub open spec fn hash_fraction(seed: u32, x: int, y: int, z: int) -> int {
    ((field_value(seed, x, y, z) % 256) * SCALE) / 256
}

/// The fractions are unit fractions.
pub proof fn lemma_hash_fraction_bound(seed: u32, x: int, y: int, z: int)
    ensures
        0 <= hash_fraction(seed, x, y, z) <= 9960,
{
    let h = field_value(seed, x, y, z) % 256;
    lemma_mod_bound(field_value(seed, x, y, z), 256);
    lemma_div_is_ordered(0, h * SCALE, 256);
    lemma_div_is_ordered(h * SCALE, 255 * SCALE, 256);
}

fn hash_fraction_at(seed: u32, pos: Vec3) -> (r: i64)
    ensures
        r == hash_fraction(seed, pos.x as int, pos.y as int, pos.z as int),
        0 <= r <= 9960,
{
    proof {
        lemma_hash_fraction_bound(seed, pos.x as int, pos.y as int, pos.z as int);
        lemma_mod_bound(
            field_value(seed, pos.x as int, pos.y as int, pos.z as int),
            256,
        );
    }
    let h = crate::field::RandomField::new(seed).get(pos) % 256;
    div_nonneg((h as i64) * SCALE, 256)
}

/// The seeded gradient position used to color a placed structure's blocks:
/// mostly a per-structure fraction, nudged per block.
pub open spec fn structure_color_lerp(
    structure_seed: u32,
    structure_pos: Vec2,
    pos: Vec3,
) -> int {
    let f1 = hash_fraction(structure_seed, structure_pos.x as int, structure_pos.y as int, 0);
    let f2 = hash_fraction(structure_seed, pos.x as int, pos.y as int, pos.z as int);
    5000 + ((f1 * 3) / 4 - 3750) + (f2 / 5 - 1000)
}

/// The gradient position is a unit fraction.
pub proof fn lemma_structure_color_lerp_bound(
    structure_seed: u32,
    structure_pos: Vec2,
    pos: Vec3,
)
    ensures
        0 <= structure_color_lerp(structure_seed, structure_pos, pos) <= SCALE,
{
    let f1 = hash_fraction(structure_seed, structure_pos.x as int, structure_pos.y as int, 0);
    let f2 = hash_fraction(structure_seed, pos.x as int, pos.y as int, pos.z as int);
    lemma_hash_fraction_bound(structure_seed, structure_pos.x as int, structure_pos.y as int, 0);
    lemma_hash_fraction_bound(structure_seed, pos.x as int, pos.y as int, pos.z as int);
    lemma_div_is_ordered(0, f1 * 3, 4);
    lemma_div_is_ordered(f1 * 3, 29880int, 4);
    lemma_div_is_ordered(0, f2, 5);
    lemma_div_is_ordered(f2, 9960, 5);
}

/// The concrete voxel that a template block role turns into at world
/// position `pos` (in the structure's local frame) for a structure placed
/// with the given seed at the given horizontal position.  A literal role
/// passes its block through verbatim; the leaf roles blend between two
/// palette endpoints by the seeded gradient.
#[verifier::opaque]
pub open spec fn block_from_structure_spec(
    sblock: StructureBlock,
    pos: Vec3,
    structure_pos: Vec2,
    structure_seed: u32,
) -> Block {
    let t = structure_color_lerp(structure_seed, structure_pos, pos);
    match sblock {
        StructureBlock::TemperateLeaves => Block {
            kind: 1,
            color: lerp_rgb_spec(Rgb { r: 0, g: 80, b: 40 }, Rgb { r: 120, g: 255, b: 10 }, t),
        },
        StructureBlock::PineLeaves => Block {
            kind: 1,
            color: lerp_rgb_spec(Rgb { r: 0, g: 60, b: 50 }, Rgb { r: 30, g: 100, b: 10 }, t),
        },
        StructureBlock::PalmLeaves => Block {
            kind: 1,
            color: lerp_rgb_spec(Rgb { r: 25, g: 100, b: 30 }, Rgb { r: 75, g: 255, b: 0 }, t),
        },
        StructureBlock::Acacia => Block {
            kind: 1,
            color: lerp_rgb_spec(Rgb { r: 25, g: 80, b: 20 }, Rgb { r: 100, g: 200, b: 5 }, t),
        },
        StructureBlock::Block(block) => block,
    }
}

/// Executable mapping from a template block role to a voxel.
pub fn block_from_structure(
    sblock: StructureBlock,
    pos: Vec3,
    structure_pos: Vec2,
    structure_seed: u32,
) -> (b: Block)
    ensures
        b == block_from_structure_spec(sblock, pos, structure_pos, structure_seed),
{
    proof {
        reveal(block_from_structure_spec);
        lemma_structure_color_lerp_bound(structure_seed, structure_pos, pos);
        lemma_hash_fraction_bound(
            structure_seed,
            structure_pos.x as int,
            structure_pos.y as int,
            0,
        );
        lemma_hash_fraction_bound(structure_seed, pos.x as int, pos.y as int, pos.z as int);
    }
    let f1 = hash_fraction_at(structure_seed, Vec3::new(structure_pos.x, structure_pos.y, 0));
    let f2 = hash_fraction_at(structure_seed, pos);
    proof {
        lemma_div_is_ordered(0, f1 as int * 3, 4);
        lemma_div_is_ordered(f1 as int * 3, 29880int, 4);
        lemma_div_is_ordered(0, f2 as int, 5);
        lemma_div_is_ordered(f2 as int, 9960, 5);
    }
    let t: i64 = 5000 + (div_nonneg(f1 * 3, 4) - 3750) + (div_nonneg(f2, 5) - 1000);
    match sblock {
        StructureBlock::TemperateLeaves => Block::new(
            1,
            lerp_rgb(Rgb::new(0, 80, 40), Rgb::new(120, 255, 10), t),
        ),
        StructureBlock::PineLeaves => Block::new(
            1,
            lerp_rgb(Rgb::new(0, 60, 50), Rgb::new(30, 100, 10), t),
        ),
        StructureBlock::PalmLeaves => Block::new(
            1,
            lerp_rgb(Rgb::new(25, 100, 30), Rgb::new(75, 255, 0), t),
        ),
        StructureBlock::Acacia => Block::new(
            1,
            lerp_rgb(Rgb::new(25, 80, 20), Rgb::new(100, 200, 5), t),
        ),
        StructureBlock::Block(block) => block,
    }
}

} // verus!
