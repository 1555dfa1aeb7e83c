//! Fixed-point planar geometry: vectors and poses in milli-units.

use vstd::prelude::*;

verus! {

/// True when `x` fits in an `i64`.
pub open spec fn fits_i64(x: int) -> bool {
    i64::MIN <= x <= i64::MAX
}

/// Largest magnitude, in milli-units, that a stored coordinate or angle may
/// have. Keeping stored values strictly inside this bound guarantees that a
/// single sum or difference of two of them still fits in an `i64`.
pub const COORD_LIMIT: i64 = 0x4000_0000_0000_0000;

/// True when `c` is strictly inside the coordinate bound.
pub open spec fn coord_in_range(c: i64) -> bool {
    -COORD_LIMIT < c < COORD_LIMIT
}

/// A planar vector whose components are thousandths of a simulation unit.
#[derive(Clone, Copy, Debug, PartialEq, Eq, Structural)]
pub struct Vec2Fix {
    pub x: i64,
    pub y: i64,
}

impl Vec2Fix {
    /// Scales both components by an integer factor.
    pub fn scale(self, k: i64) -> (r: Vec2Fix)
        requires
            fits_i64(self.x * k),
            fits_i64(self.y * k),
        ensures
            r.x == self.x * k,
            r.y == self.y * k,
    {
        Vec2Fix { x: self.x * k, y: self.y * k }
    }
}

/// Position plus rotation angle of a rigid body, in milli-units and
/// milli-radians.
#[derive(Clone, Copy, Debug, PartialEq, Eq, Structural)]
pub struct Pose {
    pub position: Vec2Fix,
    pub rotation: i64,
}

/// True when every component of `p` is inside the coordinate bound.
pub open spec fn pose_bounded(p: Pose) -> bool {
    coord_in_range(p.position.x) && coord_in_range(p.position.y) && coord_in_range(p.rotation)
}

} // verus!
