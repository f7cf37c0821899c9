//! Structure templates: immutable 3-D voxel volumes with named block roles,
//! sampled in their own local coordinate frame.

use vstd::prelude::*;

verus! {

use crate::block::StructureBlock;
use crate::geom::Vec3;

/// An immutable voxel volume.  `min` is the inclusive lower corner of its
/// local bounding box, `size` its positive extent per axis, and `blocks`
/// the row-major cell contents (`x` outermost, `z` innermost); `None` cells
/// are transparent.
#[derive(Clone, Debug)]
pub struct Template {
    pub min: Vec3,
    pub size: Vec3,
    pub blocks: Vec<Option<StructureBlock>>,
}

impl Template {
    /// Shape invariants: a small bounded box whose cell vector matches its
    /// extent.
    pub open spec fn wf(self) -> bool {
        &&& 1 <= self.size.x <= 256
        &&& 1 <= self.size.y <= 256
        &&& 1 <= self.size.z <= 256
        &&& -256 <= self.min.x <= 256
        &&& -256 <= self.min.y <= 256
        &&& -256 <= self.min.z <= 256
        &&& self.blocks@.len() == self.size.x * self.size.y * self.size.z
    }

    /// Whether a local xy position lies inside the footprint.
    pub open spec fn contains_xy(self, lx: int, ly: int) -> bool {
        &&& self.min.x <= lx < self.min.x + self.size.x
        &&& self.min.y <= ly < self.min.y + self.size.y
    }

    /// Whether a local position lies inside the bounding box.
    pub open spec fn contains(self, lx: int, ly: int, lz: int) -> bool {
        &&& self.contains_xy(lx, ly)
        &&& self.min.z <= lz < self.min.z + self.size.z
    }

    /// Row-major cell index of a local position.
    pub open spec fn cell_index(self, lx: int, ly: int, lz: int) -> int {
        ((lx - self.min.x) * self.size.y + (ly - self.min.y)) * self.size.z + (lz - self.min.z)
    }

    /// The cell contents at a local position; transparent outside the box.
    pub open spec fn block_at(self, lx: int, ly: int, lz: int) -> Option<StructureBlock> {
        if self.contains(lx, ly, lz) {
            self.blocks@[self.cell_index(lx, ly, lz)]
        } else {
            None
        }
    }

    /// One past the highest local z of the bounding box.
    pub open spec fn top_z(self) -> int {
        self.min.z + self.size.z
    }

    /// Sample the template at a local position.
    pub fn get(&self, lx: i64, ly: i64, lz: i64) -> (r: Option<StructureBlock>)
        requires
            self.wf(),
        ensures
            r == self.block_at(lx as int, ly as int, lz as int),
    {
        let minx = self.min.x as i64;
        let miny = self.min.y as i64;
        let minz = self.min.z as i64;
        let sx = self.size.x as i64;
        let sy = self.size.y as i64;
        let sz = self.size.z as i64;
        if lx >= minx && lx < minx + sx && ly >= miny && ly < miny + sy && lz >= minz && lz < minz
            + sz {
            let ix = (lx - minx) as usize;
            let iy = (ly - miny) as usize;
            let iz = (lz - minz) as usize;
            proof {
                lemma_cell_index_in_range(
                    ix as int,
                    iy as int,
                    iz as int,
                    sx as int,
                    sy as int,
                    sz as int,
                );
            }
            let idx: usize = (ix * (sy as usize) + iy) * (sz as usize) + iz;
            self.blocks[idx]
        } else {
            None
        }
    }
}

/// A row-major index of an in-range cell is in range of the cell vector.
proof fn lemma_cell_index_in_range(ix: int, iy: int, iz: int, sx: int, sy: int, sz: int)
    requires
        0 <= ix < sx,
        0 <= iy < sy,
        0 <= iz < sz,
        sx <= 256,
        sy <= 256,
        sz <= 256,
    ensures
        0 <= (ix * sy + iy) * sz + iz < sx * sy * sz,
        (ix * sy + iy) * sz + iz < 0x1000000,
        ix * sy + iy < 0x10000,
{
    assert(0 <= (ix * sy + iy) * sz + iz < sx * sy * sz && (ix * sy + iy) * sz + iz < 0x1000000
        && ix * sy + iy < 0x10000) by (nonlinear_arith)
        requires
            0 <= ix < sx,
            0 <= iy < sy,
            0 <= iz < sz,
            sx <= 256,
            sy <= 256,
            sz <= 256,
    ;
}

} // verus!
