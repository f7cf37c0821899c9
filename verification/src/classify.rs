//! The voxel classifier: material layers in priority order (underground,
//! surface crust, ocean, air), then the cave-carving and rock-decoration
//! overrides, then structure blending.

use vstd::prelude::*;

verus! {

use crate::block::{
    block_from_structure,
    block_from_structure_spec,
    lerp_rgb,
    lerp_rgb_spec,
    spec_stone_color,
    spec_water_block,
    stone_color,
    water_block,
    Block,
    Rgb,
};
use crate::column::ColumnAttributes;
use crate::field::{field_value, RandomField};
use crate::fixed::{
    abs_i64,
    abs_spec,
    clamp,
    clamp_spec,
    div_nonneg,
    isqrt,
    lemma_unit_sq,
    sqrt_floor,
    SCALE,
};
use crate::geom::{Vec2, Vec3};
use crate::heights::{height_water_at, HEIGHT_LIM};
use crate::structure::{resolve_candidate, seed_plus, StructureInfo};
use crate::world::{column_at, WorldIndex};
use vstd::arithmetic::div_mod::{lemma_div_is_ordered, lemma_mod_bound};

/// The cave-carving predicate: the squared cave likelihood, scaled by a
/// quartic falloff of the distance from the cave altitude (in units of 40
/// blocks), exceeds the fixed threshold `0.9993`.
pub open spec fn cave_at(col: ColumnAttributes, z: int) -> bool {
    let d = abs_spec(z * (SCALE as int) - col.cave_alt);
    if d >= 400000 {
        false
    } else {
        let t = d / 40;
        let t2 = (t * t) / (SCALE as int);
        let t4 = (t2 * t2) / (SCALE as int);
        let cx2 = (col.cave_xy * col.cave_xy) / (SCALE as int);
        cx2 * ((SCALE as int) - t4) > 9993 * (SCALE as int)
    }
}

/// Executable cave predicate.
pub fn cave_pred(col: &ColumnAttributes, z: i32) -> (r: bool)
    requires
        col.wf(),
    ensures
        r == cave_at(*col, z as int),
{
    let d = abs_i64((z as i64) * SCALE - col.cave_alt);
    if d >= 400000 {
        false
    } else {
        proof {
            lemma_div_is_ordered(d as int, 399999, 40);
        }
        let t = div_nonneg(d, 40);
        proof {
            lemma_unit_sq(t as int);
        }
        let t2 = div_nonneg(t * t, SCALE);
        proof {
            lemma_unit_sq(t2 as int);
        }
        let t4 = div_nonneg(t2 * t2, SCALE);
        proof {
            lemma_unit_sq(col.cave_xy as int);
        }
        let cx2 = div_nonneg(col.cave_xy * col.cave_xy, SCALE);
        proof {
            assert(0 <= cx2 * (SCALE - t4) <= 100_000_000) by (nonlinear_arith)
                requires
                    0 <= cx2 <= 10000,
                    0 <= SCALE - t4 <= 10000,
            ;
        }
        cx2 * (SCALE - t4) > 9993 * SCALE
    }
}

/// The rock-decoration predicate: the squared distance of `z` from a band
/// centered 2.5 blocks above the height, in units of 7.5 blocks, lies
/// below the column's rock density.
pub open spec fn rock_at(height: int, z: int, rock: int) -> bool {
    let e = abs_spec(height + 25000 - z * (SCALE as int));
    if e >= 75000 {
        false
    } else {
        let q = (e * 2) / 15;
        q * q < rock * (SCALE as int)
    }
}

/// Executable rock predicate.
pub fn rock_pred(height: i64, z: i32, rock: i64) -> (r: bool)
    requires
        -HEIGHT_LIM <= height <= HEIGHT_LIM,
        0 <= rock <= SCALE,
    ensures
        r == rock_at(height as int, z as int, rock as int),
{
    let e = abs_i64(height + 25000 - (z as i64) * SCALE);
    if e >= 75000 {
        false
    } else {
        proof {
            lemma_div_is_ordered(e as int * 2, 149998, 15);
        }
        let q = div_nonneg(e * 2, 15);
        proof {
            lemma_unit_sq(q as int);
        }
        q * q < rock * SCALE
    }
}

/// The mottled rock voxel at a position: stone darkened per channel by
/// three independent seeded hash fields.
pub open spec fn rock_block_at(seed: u32, p: Vec3) -> Block {
    Block {
        kind: 1,
        color: Rgb {
            r: (240 - field_value(seed, p.x as int, p.y as int, p.z as int) % 32) as u8,
            g: (230 - field_value(seed_plus(seed, 1), p.x as int, p.y as int, p.z as int)
                % 32) as u8,
            b: (220 - field_value(seed_plus(seed, 2), p.x as int, p.y as int, p.z as int)
                % 32) as u8,
        },
    }
}

/// Executable rock voxel.
pub fn rock_block(seed: u32, p: Vec3) -> (b: Block)
    ensures
        b == rock_block_at(seed, p),
{
    proof {
        lemma_mod_bound(field_value(seed, p.x as int, p.y as int, p.z as int), 32);
        lemma_mod_bound(field_value(seed_plus(seed, 1), p.x as int, p.y as int, p.z as int), 32);
        lemma_mod_bound(field_value(seed_plus(seed, 2), p.x as int, p.y as int, p.z as int), 32);
    }
    let h0 = RandomField::new(seed).get(p) % 32;
    let h1 = RandomField::new(seed.wrapping_add(1)).get(p) % 32;
    let h2 = RandomField::new(seed.wrapping_add(2)).get(p) % 32;
    Block::new(1, Rgb::new(240 - (h0 as u8), 230 - (h1 as u8), 220 - (h2 as u8)))
}

/// The natural material layers, first match wins: underground (sub-surface
/// color fading to stone with depth; soft within `32 * chaos` of the base
/// altitude, hard below), surface crust (sub-surface to surface color by a
/// square-root ease), ocean water, then air.
pub open spec fn natural_block_at(
    col: ColumnAttributes,
    height: int,
    water: int,
    z: int,
) -> Option<Block> {
    let zf = z * (SCALE as int);
    let gd = 15000 + 2 * col.chaos;
    if zf < height - gd {
        let f = clamp_spec(((height - gd - zf) * 15) / 100, 0, SCALE as int);
        let kind: u8 = if zf > col.alt - 32 * col.chaos {
            1u8
        } else {
            2u8
        };
        Some(Block { kind, color: lerp_rgb_spec(col.sub_surface_color, spec_stone_color(), f) })
    } else if zf < height {
        let fr = ((zf - (height - gd)) * (SCALE as int)) / gd;
        let s = sqrt_floor((fr * (SCALE as int)) as nat) as int;
        Some(
            Block {
                kind: 1,
                color: lerp_rgb_spec(col.sub_surface_color, col.surface_color, s),
            },
        )
    } else if zf < water {
        Some(spec_water_block())
    } else {
        None
    }
}

/// Executable natural layers.
pub fn natural_block(col: &ColumnAttributes, height: i64, water: i64, z: i32) -> (r: Option<
    Block,
>)
    requires
        col.wf(),
        -HEIGHT_LIM <= height <= HEIGHT_LIM,
    ensures
        r == natural_block_at(*col, height as int, water as int, z as int),
{
    let zf: i64 = (z as i64) * SCALE;
    let gd: i64 = 15000 + 2 * col.chaos;
    if zf < height - gd {
        let f0 = div_nonneg((height - gd - zf) * 15, 100);
        let f = clamp(f0, 0, SCALE);
        let kind: u8 = if zf > col.alt - 32 * col.chaos {
            1
        } else {
            2
        };
        Some(Block::new(kind, lerp_rgb(col.sub_surface_color, stone_color(), f)))
    } else if zf < height {
        let num: i64 = zf - (height - gd);
        proof {
            lemma_div_is_ordered(num as int * SCALE, gd as int * SCALE, gd as int);
            vstd::arithmetic::div_mod::lemma_div_multiples_vanish(SCALE as int, gd as int);
            lemma_div_is_ordered(0, num as int * SCALE, gd as int);
        }
        let fr = div_nonneg(num * SCALE, gd);
        let s64 = isqrt((fr * SCALE) as u64);
        proof {
            assert(s64 <= 10000) by (nonlinear_arith)
                requires
                    s64 * s64 <= 100_000_000int,
                    s64 >= 0,
            ;
        }
        let s = s64 as i64;
        Some(Block::new(1, lerp_rgb(col.sub_surface_color, col.surface_color, s)))
    } else if zf < water {
        Some(water_block())
    } else {
        None
    }
}

/// What one resolved structure shows at a world position: the query is
/// moved into the structure's local frame by its origin and basis vectors,
/// its template sampled there, and a non-empty role mapped to a concrete
/// voxel.
pub open spec fn structure_block_one(w: WorldIndex, st: StructureInfo, p: Vec3) -> Option<Block> {
    if 0 <= st.template < w.templates@.len() {
        let rx = p.x - st.pos.x;
        let ry = p.y - st.pos.y;
        let rz = p.z - st.pos.z;
        let lx = st.units.0.x * rx + st.units.1.x * ry;
        let ly = st.units.0.y * rx + st.units.1.y * ry;
        let t = w.templates@[st.template as int];
        match t.block_at(lx, ly, rz) {
            Some(sb) => {
                let b = block_from_structure_spec(
                    sb,
                    Vec3 { x: lx as i32, y: ly as i32, z: rz as i32 },
                    Vec2 { x: st.pos.x, y: st.pos.y },
                    st.seed,
                );
                if b.spec_is_empty() {
                    None
                } else {
                    Some(b)
                }
            },
            None => None,
        }
    } else {
        None
    }
}

/// Executable single-structure sampling.
#[verifier::rlimit(100)]
pub fn structure_block_one_exec(w: &WorldIndex, st: &StructureInfo, p: Vec3) -> (r: Option<
    Block,
>)
    requires
        w.wf(),
        (st.template as int) < w.templates@.len(),
        -1 <= st.units.0.x <= 1,
        -1 <= st.units.0.y <= 1,
        -1 <= st.units.1.x <= 1,
        -1 <= st.units.1.y <= 1,
    ensures
        r == structure_block_one(*w, *st, p),
{
    let rx: i64 = (p.x as i64) - (st.pos.x as i64);
    let ry: i64 = (p.y as i64) - (st.pos.y as i64);
    let rz: i64 = (p.z as i64) - (st.pos.z as i64);
    proof {
        assert(-0x2_0000_0000 <= (st.units.0.x as i64) * rx <= 0x2_0000_0000
            && -0x2_0000_0000 <= (st.units.1.x as i64) * ry <= 0x2_0000_0000
            && -0x2_0000_0000 <= (st.units.0.y as i64) * rx <= 0x2_0000_0000
            && -0x2_0000_0000 <= (st.units.1.y as i64) * ry <= 0x2_0000_0000)
            by (nonlinear_arith)
            requires
                -1 <= st.units.0.x <= 1,
                -1 <= st.units.0.y <= 1,
                -1 <= st.units.1.x <= 1,
                -1 <= st.units.1.y <= 1,
                -0x2_0000_0000 <= rx <= 0x2_0000_0000,
                -0x2_0000_0000 <= ry <= 0x2_0000_0000,
        ;
    }
    let lx: i64 = (st.units.0.x as i64) * rx + (st.units.1.x as i64) * ry;
    let ly: i64 = (st.units.0.y as i64) * rx + (st.units.1.y as i64) * ry;
    let t = &w.templates[st.template];
    match t.get(lx, ly, rz) {
        Some(sb) => {
            let b = block_from_structure(
                sb,
                Vec3::new(lx as i32, ly as i32, rz as i32),
                Vec2::new(st.pos.x, st.pos.y),
                st.seed,
            );
            if b.is_empty() {
                None
            } else {
                Some(b)
            }
        },
        None => None,
    }
}

/// The first structure slot (in candidate order, starting at `i`) whose
/// resolved template shows a non-empty mapped voxel at `p`.
pub open spec fn structure_find(w: WorldIndex, col: ColumnAttributes, p: Vec3, i: int) -> Option<
    Block,
>
    decreases 9 - i,
{
    if i < 0 || i >= 9 {
        None
    } else {
        match resolve_candidate(w, col.close_trees[i]) {
            Some(pair) => match structure_block_one(w, pair.0, p) {
                Some(b) => Some(b),
                None => structure_find(w, col, p, i + 1),
            },
            None => structure_find(w, col, p, i + 1),
        }
    }
}

/// The classifier's full answer at a position whose column has attributes
/// `col`: natural layers, cave carving, rock decoration, then structure
/// blending (skipped in the short-circuit underground region), a structure
/// voxel overriding whatever the natural passes produced.
pub open spec fn classify_at(w: WorldIndex, col: ColumnAttributes, p: Vec3) -> Block {
    let hw = height_water_at(w, col, p);
    let natural = natural_block_at(col, hw.1, hw.2, p.z as int);
    let carved = cave_at(col, p.z as int);
    let base = if carved {
        Option::<Block>::None
    } else {
        natural
    };
    let rocked = if base is None && !carved && rock_at(hw.1, p.z as int, col.rock as int) {
        Some(rock_block_at(w.seed, p))
    } else {
        base
    };
    if hw.0 {
        match rocked {
            Some(b) => b,
            None => Block::spec_empty(),
        }
    } else {
        match structure_find(w, col, p, 0) {
            Some(b) => b,
            None => match rocked {
                Some(b) => b,
                None => Block::spec_empty(),
            },
        }
    }
}

/// The voxel at a 3-D position: nothing where the column sampler has no
/// data, otherwise the classifier's answer (air being a present answer).
pub open spec fn voxel_at_spec(w: WorldIndex, p: Vec3) -> Option<Block> {
    match column_at(w, p.spec_xy()) {
        Some(col) => Some(classify_at(w, col, p)),
        None => None,
    }
}

} // verus!
