//! Plain integer vectors for horizontal and full 3-D world positions.

use vstd::prelude::*;

verus! {

/// A horizontal (column) position in whole blocks.
#[derive(Copy, Clone, Debug, PartialEq, Eq, Hash)]
pub struct Vec2 {
    pub x: i32,
    pub y: i32,
}

/// A full 3-D voxel position in whole blocks.
#[derive(Copy, Clone, Debug, PartialEq, Eq, Hash)]
pub struct Vec3 {
    pub x: i32,
    pub y: i32,
    pub z: i32,
}

impl Vec2 {
    pub fn new(x: i32, y: i32) -> (r: Vec2)
        ensures
            r.x == x,
            r.y == y,
    {
        Vec2 { x, y }
    }
}

impl Vec3 {
    pub fn new(x: i32, y: i32, z: i32) -> (r: Vec3)
        ensures
            r.x == x,
            r.y == y,
            r.z == z,
    {
        Vec3 { x, y, z }
    }

    /// The horizontal part of this position.
    pub open spec fn spec_xy(self) -> Vec2 {
        Vec2 { x: self.x, y: self.y }
    }

    #[verifier::when_used_as_spec(spec_xy)]
    pub fn xy(self) -> (r: Vec2)
        ensures
            r == self.spec_xy(),
    {
        Vec2 { x: self.x, y: self.y }
    }
}

} // verus!
