//! Per-column attributes, as the column sampler reports them.

use vstd::prelude::*;

verus! {

use crate::block::Rgb;
use crate::fixed::{ALT_LIM, SCALE};
use crate::geom::Vec2;

/// A candidate site for a discrete feature near a column: a horizontal
/// position plus the seed that drives everything derived from it.
#[derive(Copy, Clone, Debug, PartialEq, Eq, Hash)]
pub struct StructureCandidate {
    pub pos: Vec2,
    pub seed: u32,
}

/// Everything the column sampler reports for one horizontal position.
/// Scalars are fixed-point ([`SCALE`] per block); colors are 8-bit RGB.
/// A value is immutable once created and is a pure function of the world
/// seed and the column position.
#[derive(Copy, Clone, Debug)]
pub struct ColumnAttributes {
    /// Base terrain height, before warp and cliffs.
    pub alt: i64,
    /// Roughness in `[0, 1]`: scales warp amplitude, crust depth and the
    /// underground soft/hard boundary.
    pub chaos: i64,
    /// Height of the local water table.
    pub water_level: i64,
    /// Color at the very surface.
    pub surface_color: Rgb,
    /// Color just below the surface crust.
    pub sub_surface_color: Rgb,
    /// The nine candidate sites for structures near this column.
    pub close_trees: [StructureCandidate; 9],
    /// Horizontal cave likelihood in `[-1, 1]`.
    pub cave_xy: i64,
    /// Altitude at which cave carving is centered.
    pub cave_alt: i64,
    /// Rock decoration density in `[0, 1]`.
    pub rock: i64,
    /// Whether this column itself bears a cliff.
    pub is_cliffs: bool,
    /// Whether any cliff is near enough to raise this column's bounds.
    pub near_cliffs: bool,
    /// Extra hill offset added to cliff contributions around this column.
    pub cliff_hill: i64,
    /// Cliff spawn likelihood in `[0, 1]`.
    pub spawn_rate: i64,
    /// The nine candidate cliff-bearing neighbors of this column.
    pub close_cliffs: [StructureCandidate; 9],
}

impl ColumnAttributes {
    /// Range invariants: unit-interval fields are unit fractions and
    /// altitude-like fields have bounded magnitude, so that every sum the
    /// pipeline forms stays far inside `i64`.
    pub open spec fn wf(self) -> bool {
        &&& 0 <= self.chaos <= SCALE
        &&& -SCALE <= self.cave_xy <= SCALE
        &&& 0 <= self.rock <= SCALE
        &&& 0 <= self.spawn_rate <= SCALE
        &&& -ALT_LIM <= self.alt <= ALT_LIM
        &&& -ALT_LIM <= self.water_level <= ALT_LIM
        &&& -ALT_LIM <= self.cave_alt <= ALT_LIM
        &&& -ALT_LIM <= self.cliff_hill <= ALT_LIM
    }
}

} // verus!
