use vstd::prelude::*;
use wide::f32x8;
use crate::lanes::{add_lanes, is_lane_product, is_lane_sum, mul_lanes};

verus! {

/// Eight 3-vectors in structure-of-arrays form: lane `i` of `x`, `y` and `z`
/// together make the `i`-th vector.
#[derive(Clone, Copy)]
pub struct Vec3x8 {
    pub x: f32x8,
    pub y: f32x8,
    pub z: f32x8,
}

impl Vec3x8 {
    pub fn new(x: f32x8, y: f32x8, z: f32x8) -> (v: Vec3x8)
        ensures
            v.x == x,
            v.y == y,
            v.z == z,
    {
        Vec3x8 { x, y, z }
    }

    /// Holds when `p` is `self + d * t`, per component and per lane.
    pub open spec fn is_offset(self, d: Vec3x8, t: f32x8, p: Vec3x8) -> bool {
        &&& is_offset_lanes(self.x, d.x, t, p.x)
        &&& is_offset_lanes(self.y, d.y, t, p.y)
        &&& is_offset_lanes(self.z, d.z, t, p.z)
    }
}

/// Holds when `p` is `o + d * t` in one component: the product is rounded
/// first, then added, lane by lane.
pub open spec fn is_offset_lanes(o: f32x8, d: f32x8, t: f32x8, p: f32x8) -> bool {
    exists|m: f32x8| is_lane_product(d, t, m) && is_lane_sum(o, m, p)
}

/// Eight rays packed lane by lane; ray `i` starts at lane `i` of `origin`
/// and runs along lane `i` of `direction`.
#[derive(Clone, Copy)]
pub struct Rayx8 {
    pub origin: Vec3x8,
    pub direction: Vec3x8,
}

impl Rayx8 {
    pub fn new(origin: Vec3x8, direction: Vec3x8) -> (r: Rayx8)
        ensures
            r.origin == origin,
            r.direction == direction,
    {
        Rayx8 { origin, direction }
    }

    /// The eight points `origin + t * direction`, lane `i` of `t` being the
    /// parameter of ray `i`.
    pub fn at(&self, t: f32x8) -> (p: Vec3x8)
        ensures
            self.origin.is_offset(self.direction, t, p),
    {
        let o = self.origin;
        let d = self.direction;
        Vec3x8 {
            x: add_lanes(o.x, mul_lanes(d.x, t)),
            y: add_lanes(o.y, mul_lanes(d.y, t)),
            z: add_lanes(o.z, mul_lanes(d.z, t)),
        }
    }
}

} // verus!
