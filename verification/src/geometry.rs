//! Integer vectors: the sizes of block groups.
use vstd::prelude::*;

verus! {

/// A three-dimensional vector of unsigned integers, such as the size of a block group.
#[derive(Debug, Clone, Copy, PartialEq, Eq, Structural)]
pub struct UVec3 {
    pub x: u32,
    pub y: u32,
    pub z: u32,
}

impl UVec3 {
    /// The vector `(x, y, z)`.
    pub fn new(x: u32, y: u32, z: u32) -> (r: Self)
        ensures
            r == (UVec3 { x, y, z }),
    {
        UVec3 { x, y, z }
    }

    /// The number of unit cells in a box of this size.
    pub open spec fn cell_count(self) -> int {
        self.x * self.y * self.z
    }

    /// The number of unit cells in a box of this size, computed as `x * y * z` from
    /// the left; each partial product must fit in a `u32`.
    pub fn volume(&self) -> (r: u32)
        requires
            self.x * self.y <= u32::MAX,
            self.cell_count() <= u32::MAX,
        ensures
            r == self.cell_count(),
    {
        let xy = self.x * self.y;
        assert(xy * self.z == self.x * self.y * self.z) by (nonlinear_arith)
            requires xy == self.x * self.y;
        xy * self.z
    }
}

} // verus!
