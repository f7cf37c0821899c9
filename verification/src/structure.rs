//! The structure resolver: turns a structure candidate into concrete
//! placement metadata, when the candidate's own column allows growth there.

use vstd::prelude::*;

verus! {

use crate::cache::ColumnCache;
use crate::column::{ColumnAttributes, StructureCandidate};
use crate::field::{field_value, RandomField};
use crate::fixed::{div_floor, ALT_LIM, SCALE};
use crate::geom::{Vec2, Vec3};
use crate::world::{column_at, WorldIndex};
use vstd::arithmetic::div_mod::{lemma_div_is_ordered, lemma_mod_bound};

/// A seed with a small offset folded in, wrapping like the 32-bit space it
/// lives in; used to derive independent hash fields from one seed.
pub open spec fn seed_plus(seed: u32, d: u32) -> u32 {
    vstd::wrapping::u32_specs::wrapping_add(seed, d)
}

/// Resolved placement of one structure: world origin, seed, the two
/// orthogonal horizontal unit basis vectors of its footprint, and the index
/// of its template in the world's asset table.
#[derive(Copy, Clone, Debug)]
pub struct StructureInfo {
    pub pos: Vec3,
    pub seed: u32,
    pub units: (Vec2, Vec2),
    pub template: usize,
}

/// The eight axis-aligned footprint orientations, selected by seed.
pub open spec fn units_of(seed: u32) -> (Vec2, Vec2) {
    let h = field_value(seed_plus(seed, 1), 0, 0, 0) % 8;
    if h == 0 {
        (Vec2 { x: 1, y: 0 }, Vec2 { x: 0, y: 1 })
    } else if h == 1 {
        (Vec2 { x: 1, y: 0 }, Vec2 { x: 0, y: -1i32 })
    } else if h == 2 {
        (Vec2 { x: -1i32, y: 0 }, Vec2 { x: 0, y: 1 })
    } else if h == 3 {
        (Vec2 { x: -1i32, y: 0 }, Vec2 { x: 0, y: -1i32 })
    } else if h == 4 {
        (Vec2 { x: 0, y: 1 }, Vec2 { x: 1, y: 0 })
    } else if h == 5 {
        (Vec2 { x: 0, y: 1 }, Vec2 { x: -1i32, y: 0 })
    } else if h == 6 {
        (Vec2 { x: 0, y: -1i32 }, Vec2 { x: 1, y: 0 })
    } else {
        (Vec2 { x: 0, y: -1i32 }, Vec2 { x: -1i32, y: 0 })
    }
}

/// Basis vectors are unit steps along an axis.
pub proof fn lemma_units_small(seed: u32)
    ensures
        -1 <= units_of(seed).0.x <= 1,
        -1 <= units_of(seed).0.y <= 1,
        -1 <= units_of(seed).1.x <= 1,
        -1 <= units_of(seed).1.y <= 1,
{
    lemma_mod_bound(field_value(seed_plus(seed, 1), 0, 0, 0), 8);
}

/// Whether a structure may grow on a column: the candidate's own column
/// must stand above its water table, and a seed-driven draw must not veto
/// it.  A pure function of the column attributes and the seed alone.
pub open spec fn eligible(attrs: ColumnAttributes, seed: u32) -> bool {
    &&& attrs.alt > attrs.water_level
    &&& field_value(seed, 0, 0, 0) % 4 != 0
}

/// Which template a seed selects from a table of `n` (requires `n > 0`).
pub open spec fn template_choice(seed: u32, n: int) -> int {
    field_value(seed_plus(seed, 2), 0, 0, 0) % n
}

/// What the resolver yields for one candidate: placement metadata and the
/// candidate column's own attributes, or nothing when the candidate column
/// has no data, is ineligible, or no templates exist.
pub open spec fn resolve_candidate(w: WorldIndex, cand: StructureCandidate) -> Option<
    (StructureInfo, ColumnAttributes),
> {
    match column_at(w, cand.pos) {
        Some(st_attrs) => if eligible(st_attrs, cand.seed) && w.templates@.len() > 0 {
            Some(
                (
                    StructureInfo {
                        pos: Vec3 {
                            x: cand.pos.x,
                            y: cand.pos.y,
                            z: (st_attrs.alt as int / SCALE as int) as i32,
                        },
                        seed: cand.seed,
                        units: units_of(cand.seed),
                        template: template_choice(cand.seed, w.templates@.len() as int) as usize,
                    },
                    st_attrs,
                ),
            )
        } else {
            None
        },
        None => None,
    }
}

/// A resolved template index selects into the table.
pub proof fn lemma_resolved_template_in_range(w: WorldIndex, cand: StructureCandidate)
    requires
        resolve_candidate(w, cand) is Some,
    ensures
        (resolve_candidate(w, cand)->Some_0.0.template as int) < w.templates@.len(),
{
    lemma_mod_bound(
        field_value(seed_plus(cand.seed, 2), 0, 0, 0),
        w.templates@.len() as int,
    );
}

/// Resolve one candidate, sampling its column through the cache.
pub fn structure_gen(w: &WorldIndex, cache: &mut ColumnCache, cand: StructureCandidate) -> (r:
    Option<(StructureInfo, ColumnAttributes)>)
    requires
        w.wf(),
        old(cache).wf(*w),
    ensures
        final(cache).wf(*w),
        r == resolve_candidate(*w, cand),
{
    let st_attrs = match cache.get(w, cand.pos) {
        Some(a) => a,
        None => {
            return None;
        },
    };
    let veto = RandomField::new(cand.seed).get(Vec3::new(0, 0, 0)) % 4 == 0;
    let n = w.templates.len();
    if st_attrs.alt > st_attrs.water_level && !veto && n > 0 {
        proof {
            assert(st_attrs.wf());
            lemma_div_is_ordered(-(ALT_LIM as int), st_attrs.alt as int, SCALE as int);
            lemma_div_is_ordered(st_attrs.alt as int, ALT_LIM as int, SCALE as int);
            lemma_mod_bound(field_value(seed_plus(cand.seed, 2), 0, 0, 0), n as int);
        }
        let z0 = div_floor(st_attrs.alt, SCALE) as i32;
        let sel = RandomField::new(cand.seed.wrapping_add(2)).get(Vec3::new(0, 0, 0));
        let template = (sel as usize) % n;
        Some(
            (
                StructureInfo {
                    pos: Vec3::new(cand.pos.x, cand.pos.y, z0),
                    seed: cand.seed,
                    units: units_for(cand.seed),
                    template,
                },
                st_attrs,
            ),
        )
    } else {
        None
    }
}

/// Executable orientation selection.
fn units_for(seed: u32) -> (r: (Vec2, Vec2))
    ensures
        r == units_of(seed),
{
    let h = RandomField::new(seed.wrapping_add(1)).get(Vec3::new(0, 0, 0)) % 8;
    if h == 0 {
        (Vec2::new(1, 0), Vec2::new(0, 1))
    } else if h == 1 {
        (Vec2::new(1, 0), Vec2::new(0, -1))
    } else if h == 2 {
        (Vec2::new(-1, 0), Vec2::new(0, 1))
    } else if h == 3 {
        (Vec2::new(-1, 0), Vec2::new(0, -1))
    } else if h == 4 {
        (Vec2::new(0, 1), Vec2::new(1, 0))
    } else if h == 5 {
        (Vec2::new(0, 1), Vec2::new(-1, 0))
    } else if h == 6 {
        (Vec2::new(0, -1), Vec2::new(1, 0))
    } else {
        (Vec2::new(0, -1), Vec2::new(-1, 0))
    }
}

} // verus!
