//! Three-component vectors of fixed-point scalars.
use vstd::prelude::*;
use crate::fixed::{fx_add, fx_div, fx_mul, fx_neg, fx_sqrt, fx_sub, diff_fx, neg_fx, prod_fx, quot_fx, root_fx, sum_fx, ONE};

verus! {

/// A point, direction or linear color; each component is a fixed-point scalar.
#[derive(Clone, Copy, Debug, PartialEq, Eq, Structural)]
pub struct Vec3 {
    pub x: i64,
    pub y: i64,
    pub z: i64,
}

pub open spec fn vec3(x: int, y: int, z: int) -> Vec3 {
    Vec3 { x: x as i64, y: y as i64, z: z as i64 }
}

pub open spec fn vzero() -> Vec3 {
    Vec3 { x: 0, y: 0, z: 0 }
}

pub open spec fn vadd(a: Vec3, b: Vec3) -> Vec3 {
    vec3(sum_fx(a.x as int, b.x as int), sum_fx(a.y as int, b.y as int), sum_fx(a.z as int, b.z as int))
}

pub open spec fn vsub(a: Vec3, b: Vec3) -> Vec3 {
    vec3(diff_fx(a.x as int, b.x as int), diff_fx(a.y as int, b.y as int), diff_fx(a.z as int, b.z as int))
}

pub open spec fn vneg(a: Vec3) -> Vec3 {
    vec3(neg_fx(a.x as int), neg_fx(a.y as int), neg_fx(a.z as int))
}

/// Every component multiplied by the scalar `s`.
pub open spec fn vscale(a: Vec3, s: int) -> Vec3 {
    vec3(prod_fx(a.x as int, s), prod_fx(a.y as int, s), prod_fx(a.z as int, s))
}

/// Component-wise product (used to filter one color by another).
pub open spec fn vmul(a: Vec3, b: Vec3) -> Vec3 {
    vec3(prod_fx(a.x as int, b.x as int), prod_fx(a.y as int, b.y as int), prod_fx(a.z as int, b.z as int))
}

pub open spec fn vdot(a: Vec3, b: Vec3) -> int {
    sum_fx(
        sum_fx(prod_fx(a.x as int, b.x as int), prod_fx(a.y as int, b.y as int)),
        prod_fx(a.z as int, b.z as int),
    )
}

pub open spec fn vcross(a: Vec3, b: Vec3) -> Vec3 {
    vec3(
        diff_fx(prod_fx(a.y as int, b.z as int), prod_fx(a.z as int, b.y as int)),
        diff_fx(prod_fx(a.z as int, b.x as int), prod_fx(a.x as int, b.z as int)),
        diff_fx(prod_fx(a.x as int, b.y as int), prod_fx(a.y as int, b.x as int)),
    )
}

pub open spec fn vlength(a: Vec3) -> int {
    root_fx(vdot(a, a))
}

/// `a` divided by its length; the zero vector where the length rounds to 0.
pub open spec fn vnormalize(a: Vec3) -> Vec3 {
    let l = vlength(a);
    if l == 0 {
        vzero()
    } else {
        vec3(quot_fx(a.x as int, l), quot_fx(a.y as int, l), quot_fx(a.z as int, l))
    }
}

/// Mirror image of `incident` about the plane with unit normal `normal`:
/// `incident - normal * 2 * dot(incident, normal)`, not renormalized.
pub open spec fn vreflect(incident: Vec3, normal: Vec3) -> Vec3 {
    vsub(incident, vscale(vscale(normal, 2 * ONE), vdot(incident, normal)))
}

impl Vec3 {
    pub fn new(x: i64, y: i64, z: i64) -> (r: Vec3)
        ensures
            r == (Vec3 { x, y, z }),
    {
        Vec3 { x, y, z }
    }

    pub fn zero() -> (r: Vec3)
        ensures
            r == vzero(),
    {
        Vec3 { x: 0, y: 0, z: 0 }
    }

    pub fn add(self, o: Vec3) -> (r: Vec3)
        ensures
            r == vadd(self, o),
    {
        Vec3 { x: fx_add(self.x, o.x), y: fx_add(self.y, o.y), z: fx_add(self.z, o.z) }
    }

    pub fn sub(self, o: Vec3) -> (r: Vec3)
        ensures
            r == vsub(self, o),
    {
        Vec3 { x: fx_sub(self.x, o.x), y: fx_sub(self.y, o.y), z: fx_sub(self.z, o.z) }
    }

    pub fn neg(self) -> (r: Vec3)
        ensures
            r == vneg(self),
    {
        Vec3 { x: fx_neg(self.x), y: fx_neg(self.y), z: fx_neg(self.z) }
    }

    pub fn scale(self, s: i64) -> (r: Vec3)
        ensures
            r == vscale(self, s as int),
    {
        Vec3 { x: fx_mul(self.x, s), y: fx_mul(self.y, s), z: fx_mul(self.z, s) }
    }

    pub fn mul(self, o: Vec3) -> (r: Vec3)
        ensures
            r == vmul(self, o),
    {
        Vec3 { x: fx_mul(self.x, o.x), y: fx_mul(self.y, o.y), z: fx_mul(self.z, o.z) }
    }

    pub fn dot(self, o: Vec3) -> (r: i64)
        ensures
            r == vdot(self, o),
    {
        fx_add(fx_add(fx_mul(self.x, o.x), fx_mul(self.y, o.y)), fx_mul(self.z, o.z))
    }

    pub fn cross(self, o: Vec3) -> (r: Vec3)
        ensures
            r == vcross(self, o),
    {
        Vec3 {
            x: fx_sub(fx_mul(self.y, o.z), fx_mul(self.z, o.y)),
            y: fx_sub(fx_mul(self.z, o.x), fx_mul(self.x, o.z)),
            z: fx_sub(fx_mul(self.x, o.y), fx_mul(self.y, o.x)),
        }
    }

    pub fn length(self) -> (r: i64)
        ensures
            r == vlength(self),
            r >= 0,
    {
        fx_sqrt(self.dot(self))
    }

    pub fn normalize(self) -> (r: Vec3)
        ensures
            r == vnormalize(self),
    {
        let l = self.length();
        if l == 0 {
            Vec3::zero()
        } else {
            Vec3 { x: fx_div(self.x, l), y: fx_div(self.y, l), z: fx_div(self.z, l) }
        }
    }
}

/// Mirror direction of `incident` about `normal`.
pub fn reflect(incident: Vec3, normal: Vec3) -> (r: Vec3)
    ensures
        r == vreflect(incident, normal),
{
    incident.sub(normal.scale(2 * ONE).scale(incident.dot(normal)))
}

} // verus!
