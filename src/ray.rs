//! Rays: an origin and a unit direction.
use vstd::prelude::*;
use crate::vector::{vadd, vnormalize, vscale, Vec3};

verus! {

#[derive(Clone, Copy, Debug)]
pub struct Ray {
    pub origin: Vec3,
    pub direction: Vec3,
}

/// The point at parameter `t` along `ray`.
pub open spec fn ray_at(ray: Ray, t: int) -> Vec3 {
    vadd(ray.origin, vscale(ray.direction, t))
}

impl Ray {
    /// A ray from `origin` along `direction` normalized; a degenerate
    /// direction (length rounding to zero) becomes the zero vector, which no
    /// primitive is ever hit along.
    pub fn new(origin: Vec3, direction: Vec3) -> (r: Ray)
        ensures
            r.origin == origin,
            r.direction == vnormalize(direction),
    {
        Ray { origin, direction: direction.normalize() }
    }

    /// The point at parameter `t` along the ray.
    pub fn at(&self, t: i64) -> (r: Vec3)
        ensures
            r == ray_at(*self, t as int),
    {
        self.origin.add(self.direction.scale(t))
    }
}

} // verus!
