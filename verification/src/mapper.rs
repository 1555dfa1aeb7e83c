//! Pure, stateless affine transforms between the three coordinate spaces:
//! simulation space, normalized display/texture space (the unit square of
//! a declared box), and live render space (simulation units times a uniform
//! pixel scale).
//!
//! Normalized coordinates are kept as exact rationals `num / den`: no
//! rounding or clamping is performed, and callers are responsible for
//! feeding positions that lie within the declared box when a coordinate is
//! required to land in `[0, 1]`.

use vstd::prelude::*;

use crate::geometry::{coord_in_range, fits_i64, Pose, Vec2Fix, COORD_LIMIT};

verus! {

/// The square box of simulation space that maps onto the unit square of
/// texture space: its lower-left corner and its side length.
#[derive(Clone, Copy, Debug, PartialEq, Eq, Structural)]
pub struct BoxSpec {
    pub origin: Vec2Fix,
    /// Side length in milli-units; strictly positive.
    pub size: i64,
}

impl BoxSpec {
    pub open spec fn wf(self) -> bool {
        &&& coord_in_range(self.origin.x)
        &&& coord_in_range(self.origin.y)
        &&& 0 < self.size < COORD_LIMIT
    }
}

/// One normalized coordinate, held exactly as the rational `num / den`
/// with `den > 0`.
#[derive(Clone, Copy, Debug, PartialEq, Eq, Structural)]
pub struct NormCoord {
    pub num: i64,
    pub den: i64,
}

impl NormCoord {
    /// The rational `num / den` lies in `[0, 1]`.
    pub open spec fn in_unit(self) -> bool {
        0 <= self.num <= self.den
    }
}

/// `p` lies within the box, componentwise between the origin and the
/// origin plus the side length.
pub open spec fn in_box(p: Vec2Fix, b: BoxSpec) -> bool {
    &&& b.origin.x <= p.x <= b.origin.x + b.size
    &&& b.origin.y <= p.y <= b.origin.y + b.size
}

/// The normalized image of `p.x` under `b`: translate by the box origin,
/// then divide by the box size — kept exact as a rational.
pub open spec fn normalize_x(p: Vec2Fix, b: BoxSpec) -> NormCoord {
    NormCoord { num: (p.x - b.origin.x) as i64, den: b.size }
}

/// The normalized image of `p.y` under `b`.
pub open spec fn normalize_y(p: Vec2Fix, b: BoxSpec) -> NormCoord {
    NormCoord { num: (p.y - b.origin.y) as i64, den: b.size }
}

/// Maps a simulation-space position into normalized box space.
pub fn sim_to_normalized(p: Vec2Fix, b: &BoxSpec) -> (r: (NormCoord, NormCoord))
    requires
        b.wf(),
        coord_in_range(p.x),
        coord_in_range(p.y),
    ensures
        r.0 == normalize_x(p, *b),
        r.1 == normalize_y(p, *b),
        r.0.num == p.x - b.origin.x,
        r.1.num == p.y - b.origin.y,
        r.0.den == b.size,
        r.1.den == b.size,
{
    (
        NormCoord { num: p.x - b.origin.x, den: b.size },
        NormCoord { num: p.y - b.origin.y, den: b.size },
    )
}

/// Maps a normalized box-space coordinate pair back to the simulation-space
/// position it came from. Exact inverse of [`sim_to_normalized`] for
/// coordinates over the same box.
pub fn normalized_to_sim(nx: NormCoord, ny: NormCoord, b: &BoxSpec) -> (p: Vec2Fix)
    requires
        b.wf(),
        nx.den == b.size,
        ny.den == b.size,
        fits_i64(b.origin.x + nx.num),
        fits_i64(b.origin.y + ny.num),
    ensures
        p.x == b.origin.x + nx.num,
        p.y == b.origin.y + ny.num,
{
    Vec2Fix { x: b.origin.x + nx.num, y: b.origin.y + ny.num }
}

/// The radius of a circle, normalized to the box: `radius / size`, exact.
pub fn scaled_radius(radius: i64, b: &BoxSpec) -> (r: NormCoord)
    requires
        b.wf(),
        0 <= radius,
    ensures
        r.num == radius,
        r.den == b.size,
{
    NormCoord { num: radius, den: b.size }
}

/// A position inside the declared box lands inside the unit square: both
/// normalized coordinates lie in `[0, 1]` whenever the position lies
/// within `[origin, origin + size]` componentwise.
pub proof fn lemma_scaled_center_in_unit_square(p: Vec2Fix, b: BoxSpec)
    requires
        b.wf(),
        coord_in_range(p.x),
        coord_in_range(p.y),
        in_box(p, b),
    ensures
        normalize_x(p, b).in_unit(),
        normalize_y(p, b).in_unit(),
{
}

/// Normalizing and mapping back returns the original position.
pub proof fn lemma_normalize_round_trip(p: Vec2Fix, b: BoxSpec)
    requires
        b.wf(),
        coord_in_range(p.x),
        coord_in_range(p.y),
    ensures
        b.origin.x + normalize_x(p, b).num == p.x,
        b.origin.y + normalize_y(p, b).num == p.y,
{
}

/// Scales every vertex of a simulation-space polyline by the uniform
/// render scale, e.g. to draw the boundary in pixels.
pub fn scale_polyline(vertices: &Vec<Vec2Fix>, scale: i64) -> (out: Vec<Vec2Fix>)
    requires
        forall|i: int|
            0 <= i < vertices@.len() ==> {
                &&& fits_i64((#[trigger] vertices@[i]).x * scale)
                &&& fits_i64(vertices@[i].y * scale)
            },
    ensures
        out@.len() == vertices@.len(),
        forall|i: int|
            0 <= i < vertices@.len() ==> {
                &&& (#[trigger] out@[i]).x == vertices@[i].x * scale
                &&& out@[i].y == vertices@[i].y * scale
            },
{
    let mut out: Vec<Vec2Fix> = Vec::new();
    let n = vertices.len();
    let mut i: usize = 0;
    while i < n
        invariant
            n == vertices@.len(),
            i <= n,
            out@.len() == i,
            forall|k: int|
                0 <= k < n ==> {
                    &&& fits_i64((#[trigger] vertices@[k]).x * scale)
                    &&& fits_i64(vertices@[k].y * scale)
                },
            forall|k: int|
                0 <= k < i ==> {
                    &&& (#[trigger] out@[k]).x == vertices@[k].x * scale
                    &&& out@[k].y == vertices@[k].y * scale
                },
        decreases n - i,
    {
        let v = vertices[i];
        out.push(v.scale(scale));
        i = i + 1;
    }
    out
}

/// The rotation-offset correction applied to a spawned visual: the
/// convention here is the negative of the settled rotation, so that adding
/// the live body's continuously tracked rotation back in
/// [`sync_render_transform`] leaves the overlay aligned with the pose the
/// texture was baked for. (The mirrored-positive variant exists in the
/// wild; this crate fixes the negative one.)
pub fn visual_rotation_offset(rotation_milli: i64) -> (r: i64)
    requires
        coord_in_range(rotation_milli),
    ensures
        r == -rotation_milli,
{
    -rotation_milli
}

/// The per-frame transform-sync step: reads a live body's simulation pose
/// and produces its render transform — position scaled uniformly into
/// pixels, rotation offset by the spawn-time correction.
pub fn sync_render_transform(sim: Pose, scale: i64, rotation_offset: i64) -> (t: Pose)
    requires
        fits_i64(sim.position.x * scale),
        fits_i64(sim.position.y * scale),
        fits_i64(sim.rotation + rotation_offset),
    ensures
        t.position.x == sim.position.x * scale,
        t.position.y == sim.position.y * scale,
        t.rotation == sim.rotation + rotation_offset,
{
    Pose { position: sim.position.scale(scale), rotation: sim.rotation + rotation_offset }
}

} // verus!
