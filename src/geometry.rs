//! Ray/primitive intersection: axis-aligned boxes, planes, and the scan for
//! the nearest hit over a list of primitives.
use vstd::prelude::*;
use crate::fixed::{fx_add, fx_div, fx_mul, fx_sub, diff_fx, prod_fx, quot_fx, sum_fx, LIMIT, ONE};
use crate::material::Material;
use crate::ray::{ray_at, Ray};
use crate::vector::{vadd, vdot, vneg, vscale, vsub, Vec3};

verus! {

/// Hits at or below this distance are ignored (about 0.001).
pub const EPSILON: i64 = 64;

/// Stands for +infinity in slab parameters; above every saturated scalar.
pub const POS_INF: i64 = 1099511627777;

/// Stands for -infinity in slab parameters; below every saturated scalar.
pub const NEG_INF: i64 = -1099511627777;

/// One half, as a scalar.
pub const HALF: i64 = 32768;

#[derive(Clone, Copy, Debug, PartialEq, Eq, Structural)]
pub struct HitRecord {
    pub point: Vec3,
    /// Unit normal facing against the incoming ray.
    pub normal: Vec3,
    /// Whether the geometric (outward) normal already faced against the ray,
    /// that is, whether the ray arrives from outside.
    pub front_face: bool,
    pub t: i64,
    pub material: Material,
    pub u: i64,
    pub v: i64,
}

/// `normal`, flipped when it does not face against `dir`.
pub open spec fn front_normal(normal: Vec3, dir: Vec3) -> Vec3 {
    if vdot(dir, normal) < 0 {
        normal
    } else {
        vneg(normal)
    }
}

impl HitRecord {
    /// A hit record whose normal obeys the front-face rule for `ray`.
    pub fn new(point: Vec3, normal: Vec3, t: i64, ray: &Ray, material: Material, u: i64, v: i64) -> (r: HitRecord)
        ensures
            r == (HitRecord {
                point,
                normal: front_normal(normal, ray.direction),
                front_face: vdot(ray.direction, normal) < 0,
                t,
                material,
                u,
                v,
            }),
    {
        let front_face = ray.direction.dot(normal) < 0;
        let n = if front_face {
            normal
        } else {
            normal.neg()
        };
        HitRecord { point, normal: n, front_face, t, material, u, v }
    }
}

/// An axis-aligned box.
#[derive(Clone, Copy, Debug, PartialEq, Eq, Structural)]
pub struct Cube {
    pub min: Vec3,
    pub max: Vec3,
    pub material: Material,
}

#[derive(Clone, Copy, Debug, PartialEq, Eq, Structural)]
pub struct Plane {
    pub point: Vec3,
    pub normal: Vec3,
    pub material: Material,
}

#[derive(Clone, Copy, Debug, PartialEq, Eq, Structural)]
pub enum Primitive {
    Cube(Cube),
    Plane(Plane),
}

/// Component `a` (0, 1 or 2) of `v`.
pub open spec fn comp(v: Vec3, a: int) -> int {
    if a == 0 {
        v.x as int
    } else if a == 1 {
        v.y as int
    } else {
        v.z as int
    }
}

/// The vector with `s` in component `a` and zeros elsewhere.
pub open spec fn axis_vector(a: int, s: int) -> Vec3 {
    if a == 0 {
        Vec3 { x: s as i64, y: 0, z: 0 }
    } else if a == 1 {
        Vec3 { x: 0, y: s as i64, z: 0 }
    } else {
        Vec3 { x: 0, y: 0, z: s as i64 }
    }
}

/// Entry and exit parameters of a ray (origin `o`, direction `d` along one
/// axis) on the slab `lo <= x <= hi`. A ray parallel to the slab is inside it
/// for all parameters or for none, as an infinite quotient would give.
pub open spec fn slab(o: int, d: int, lo: int, hi: int) -> (int, int) {
    if d > 0 {
        (quot_fx(diff_fx(lo, o), d), quot_fx(diff_fx(hi, o), d))
    } else if d < 0 {
        (quot_fx(diff_fx(hi, o), d), quot_fx(diff_fx(lo, o), d))
    } else if lo <= o && o <= hi {
        (NEG_INF as int, POS_INF as int)
    } else {
        (POS_INF as int, NEG_INF as int)
    }
}

pub open spec fn max3(a: int, b: int, c: int) -> int {
    if a >= b && a >= c {
        a
    } else if b >= c {
        b
    } else {
        c
    }
}

pub open spec fn min3(a: int, b: int, c: int) -> int {
    if a <= b && a <= c {
        a
    } else if b <= c {
        b
    } else {
        c
    }
}

pub open spec fn abs(v: int) -> int {
    if v < 0 {
        -v
    } else {
        v
    }
}

/// Twice the offset of `p` from the middle of `[lo, hi]`: `2p - lo - hi`.
pub open spec fn offset2(p: int, lo: int, hi: int) -> int {
    diff_fx(diff_fx(p, lo), diff_fx(hi, p))
}

/// The axis along which `p`, taken from the center of the box in units of
/// the box's half-extent on each axis, lies farthest out; ties go to x,
/// then y. For a cube this compares the components of `p - center`.
pub open spec fn face_axis(c: Cube, p: Vec3) -> int {
    let ax = abs(offset2(p.x as int, c.min.x as int, c.max.x as int));
    let ay = abs(offset2(p.y as int, c.min.y as int, c.max.y as int));
    let az = abs(offset2(p.z as int, c.min.z as int, c.max.z as int));
    let ex = diff_fx(c.max.x as int, c.min.x as int);
    let ey = diff_fx(c.max.y as int, c.min.y as int);
    let ez = diff_fx(c.max.z as int, c.min.z as int);
    if ax * ey >= ay * ex && ax * ez >= az * ex {
        0
    } else if ay * ex >= ax * ey && ay * ez >= az * ey {
        1
    } else {
        2
    }
}

/// Outward normal of the face of the box nearest to `p`.
pub open spec fn cube_normal(c: Cube, p: Vec3) -> Vec3 {
    let a = face_axis(c, p);
    let side = if offset2(comp(p, a), comp(c.min, a), comp(c.max, a)) > 0 {
        ONE as int
    } else {
        -ONE
    };
    axis_vector(a, side)
}

/// Coordinate `p` within `[lo, hi]` mapped to `[0, 1]` (0 where the extent is empty).
pub open spec fn face_coord(p: int, lo: int, hi: int) -> int {
    let half = prod_fx(diff_fx(hi, lo), HALF as int);
    let rel = diff_fx(p, sum_fx(lo, half));
    prod_fx(sum_fx(quot_fx(rel, half), ONE as int), HALF as int)
}

/// Texture coordinates on the face of axis `a`: the two other axes.
pub open spec fn cube_uv(c: Cube, p: Vec3, a: int) -> (int, int) {
    let fx = face_coord(p.x as int, c.min.x as int, c.max.x as int);
    let fy = face_coord(p.y as int, c.min.y as int, c.max.y as int);
    let fz = face_coord(p.z as int, c.min.z as int, c.max.z as int);
    if a == 0 {
        (fz, fy)
    } else if a == 1 {
        (fx, fz)
    } else {
        (fx, fy)
    }
}

/// Where `ray` first meets the box at a distance above `EPSILON`: the entry
/// point when the origin is outside, the exit point when it is inside.
pub open spec fn cube_hit(c: Cube, ray: Ray) -> Option<HitRecord> {
    let o = ray.origin;
    let d = ray.direction;
    let (e0, x0) = slab(o.x as int, d.x as int, c.min.x as int, c.max.x as int);
    let (e1, x1) = slab(o.y as int, d.y as int, c.min.y as int, c.max.y as int);
    let (e2, x2) = slab(o.z as int, d.z as int, c.min.z as int, c.max.z as int);
    let t_min = max3(e0, e1, e2);
    let t_max = min3(x0, x1, x2);
    let entering = t_min > EPSILON;
    let t = if entering {
        t_min
    } else {
        t_max
    };
    if t_max < t_min || t <= EPSILON || t >= LIMIT {
        None
    } else {
        let p = ray_at(ray, t);
        let n = cube_normal(c, p);
        let (u, v) = cube_uv(c, p, face_axis(c, p));
        Some(
            HitRecord {
                point: p,
                normal: front_normal(n, d),
                front_face: vdot(d, n) < 0,
                t: t as i64,
                material: c.material,
                u: u as i64,
                v: v as i64,
            },
        )
    }
}

pub open spec fn plane_hit(pl: Plane, ray: Ray) -> Option<HitRecord> {
    let denom = vdot(pl.normal, ray.direction);
    if -EPSILON < denom < EPSILON {
        None
    } else {
        let t = quot_fx(vdot(vsub(pl.point, ray.origin), pl.normal), denom);
        if t <= EPSILON || t >= LIMIT {
            None
        } else {
            Some(
                HitRecord {
                    point: ray_at(ray, t),
                    normal: front_normal(pl.normal, ray.direction),
                    front_face: vdot(ray.direction, pl.normal) < 0,
                    t: t as i64,
                    material: pl.material,
                    u: 0,
                    v: 0,
                },
            )
        }
    }
}

#[verifier::opaque]
pub open spec fn prim_hit(p: Primitive, ray: Ray) -> Option<HitRecord> {
    match p {
        Primitive::Cube(c) => cube_hit(c, ray),
        Primitive::Plane(pl) => plane_hit(pl, ray),
    }
}

/// The closest hit over `prims`; among equally close hits the first one.
pub open spec fn nearest_hit(prims: Seq<Primitive>, ray: Ray) -> Option<HitRecord>
    decreases prims.len(),
{
    if prims.len() == 0 {
        None
    } else {
        let best = nearest_hit(prims.drop_last(), ray);
        match prim_hit(prims.last(), ray) {
            None => best,
            Some(h) => match best {
                None => Some(h),
                Some(b) => if h.t < b.t {
                    Some(h)
                } else {
                    best
                },
            },
        }
    }
}

/// The nearest hit is a hit of one of the primitives, no primitive is hit
/// closer, and there is none exactly when every primitive is missed.
pub proof fn lemma_nearest_hit_is_closest(prims: Seq<Primitive>, ray: Ray)
    ensures
        nearest_hit(prims, ray) is None <==> (forall|i: int|
            0 <= i < prims.len() ==> (#[trigger] prim_hit(prims[i], ray)) is None),
        nearest_hit(prims, ray) matches Some(h) ==> {
            &&& exists|i: int| 0 <= i < prims.len() && #[trigger] prim_hit(prims[i], ray) == Some(h)
            &&& forall|j: int|
                0 <= j < prims.len() && (#[trigger] prim_hit(prims[j], ray)) is Some ==> h.t
                    <= prim_hit(prims[j], ray)->Some_0.t
        },
    decreases prims.len(),
{
    if prims.len() > 0 {
        let init = prims.drop_last();
        lemma_nearest_hit_is_closest(init, ray);
        let n = prims.len() - 1;
        assert forall|i: int| 0 <= i < n implies prims[i] == #[trigger] init[i] by {}
        if nearest_hit(prims, ray) is Some {
            let h = nearest_hit(prims, ray)->Some_0;
            if nearest_hit(prims, ray) == nearest_hit(init, ray) {
                let i = choose|i: int| 0 <= i < init.len() && #[trigger] prim_hit(init[i], ray) == Some(h);
                assert(prim_hit(prims[i], ray) == Some(h));
            } else {
                assert(prim_hit(prims[n], ray) == Some(h));
            }
            assert forall|j: int|
                0 <= j < prims.len() && (#[trigger] prim_hit(prims[j], ray)) is Some implies h.t
                    <= prim_hit(prims[j], ray)->Some_0.t by {
                if j < n {
                    assert(prim_hit(init[j], ray) is Some);
                }
            }
        } else {
            assert forall|i: int| 0 <= i < prims.len() implies (#[trigger] prim_hit(prims[i], ray)) is None by {
                if i < n {
                    assert(prim_hit(init[i], ray) is None);
                }
            }
        }
    }
}

/// Half the range of coordinates for which differences never saturate (2^38).
pub const WORLD: i64 = 274877906944;

pub open spec fn in_world(v: Vec3) -> bool {
    &&& -WORLD <= v.x <= WORLD
    &&& -WORLD <= v.y <= WORLD
    &&& -WORLD <= v.z <= WORLD
}

/// A ray that starts exactly on a face of a box and points out of it does
/// not hit that box.
pub proof fn lemma_leaving_face_misses(c: Cube, ray: Ray, a: int)
    requires
        0 <= a < 3,
        (comp(ray.origin, a) == comp(c.max, a) && comp(ray.direction, a) > 0) || (comp(ray.origin, a)
            == comp(c.min, a) && comp(ray.direction, a) < 0),
    ensures
        cube_hit(c, ray) is None,
{
    let d = comp(ray.direction, a);
    assert(quot_fx(0, d) == 0) by {
        if d > 0 {
            assert((0 * ONE) / d == 0);
        } else {
            assert((-0 * ONE) / (-d) == 0);
        }
    }
}

proof fn lemma_face_axis_dominant(c: Cube, p: Vec3, a: int)
    requires
        0 <= a < 3,
        in_world(c.min),
        in_world(c.max),
        forall|b: int| 0 <= b < 3 ==> #[trigger] comp(c.min, b) < comp(c.max, b),
        abs(offset2(comp(p, a), comp(c.min, a), comp(c.max, a))) == comp(c.max, a) - comp(c.min, a),
        forall|b: int|
            0 <= b < 3 && b != a ==> abs(offset2(#[trigger] comp(p, b), comp(c.min, b), comp(c.max, b))) < comp(
                c.max,
                b,
            ) - comp(c.min, b),
    ensures
        face_axis(c, p) == a,
{
    let ax = abs(offset2(p.x as int, c.min.x as int, c.max.x as int));
    let ay = abs(offset2(p.y as int, c.min.y as int, c.max.y as int));
    let az = abs(offset2(p.z as int, c.min.z as int, c.max.z as int));
    assert(comp(c.min, 0) < comp(c.max, 0) && comp(c.min, 1) < comp(c.max, 1) && comp(c.min, 2) < comp(c.max, 2));
    let ex = diff_fx(c.max.x as int, c.min.x as int);
    let ey = diff_fx(c.max.y as int, c.min.y as int);
    let ez = diff_fx(c.max.z as int, c.min.z as int);
    assert(ex == c.max.x - c.min.x && ey == c.max.y - c.min.y && ez == c.max.z - c.min.z);
    if a == 0 {
        assert(comp(p, 1) == p.y && comp(p, 2) == p.z);
        assert(ay < ey && az < ez);
        assert(ax * ey >= ay * ex && ax * ez >= az * ex) by (nonlinear_arith)
            requires
                ax == ex,
                0 <= ay < ey,
                0 <= az < ez,
                ex > 0,
        ;
    } else if a == 1 {
        assert(comp(p, 0) == p.x && comp(p, 2) == p.z);
        assert(ax < ex && az < ez);
        assert(ax * ey < ay * ex && ay * ex >= ax * ey && ay * ez >= az * ey) by (nonlinear_arith)
            requires
                ay == ey,
                0 <= ax < ex,
                0 <= az < ez,
                ey > 0,
        ;
    } else {
        assert(comp(p, 0) == p.x && comp(p, 1) == p.y);
        assert(ax < ex && ay < ey);
        assert(ax * ez < az * ex && ay * ez < az * ey) by (nonlinear_arith)
            requires
                az == ez,
                0 <= ax < ex,
                0 <= ay < ey,
                ez > 0,
        ;
    }
}

/// A ray aimed head-on at a face of a box from outside, along that face's
/// axis (`s` is the side of the face: 1 for the far end of axis `a`, -1 for
/// the near end), hits that face first: at the distance to it, with the
/// face's outward normal.
#[verifier::rlimit(80)]
pub proof fn lemma_head_on_hit(c: Cube, ray: Ray, a: int, s: int)
    requires
        0 <= a < 3,
        s == 1 || s == -1,
        in_world(c.min),
        in_world(c.max),
        in_world(ray.origin),
        comp(c.min, a) < comp(c.max, a),
        forall|b: int|
            0 <= b < 3 && b != a ==> comp(c.min, b) < #[trigger] comp(ray.origin, b) < comp(c.max, b),
        forall|b: int| 0 <= b < 3 && b != a ==> #[trigger] comp(ray.direction, b) == 0,
        comp(ray.direction, a) == -s * ONE,
        s == 1 ==> comp(ray.origin, a) > comp(c.max, a) + EPSILON,
        s == -1 ==> comp(ray.origin, a) < comp(c.min, a) - EPSILON,
    ensures
        cube_hit(c, ray) matches Some(h) && h.t == (if s == 1 {
            comp(ray.origin, a) - comp(c.max, a)
        } else {
            comp(c.min, a) - comp(ray.origin, a)
        }) && h.normal == axis_vector(a, s * ONE),
{
    let o = comp(ray.origin, a);
    let lo = comp(c.min, a);
    let hi = comp(c.max, a);
    let one = ONE as int;
    assert(((-(hi - o)) * one) / one == o - hi);
    assert(((-(lo - o)) * one) / one == o - lo);
    assert(((lo - o) * one) / one == lo - o);
    assert(((hi - o) * one) / one == hi - o);
    assert(((-one) * one) / one == -one);
    assert((one * one) / one == one);
    let b1 = if a == 0 {
        1int
    } else {
        0int
    };
    let b2 = if a == 2 {
        1int
    } else {
        2int
    };
    assert(comp(c.min, b1) < comp(ray.origin, b1) < comp(c.max, b1));
    assert(comp(c.min, b2) < comp(ray.origin, b2) < comp(c.max, b2));
    assert(comp(ray.direction, b1) == 0);
    assert(comp(ray.direction, b2) == 0);
    assert(prod_fx(-s * ONE, s * ONE) == -one) by {
        assert((-s * one) * (s * one) == -one * one) by (nonlinear_arith)
            requires
                s == 1 || s == -1,
        ;
    }
    assert(prod_fx(0, 0) == 0);
    assert(vdot(ray.direction, axis_vector(a, s * ONE)) == -one);
    let t = if s == 1 {
        o - hi
    } else {
        lo - o
    };
    let p = ray_at(ray, t);
    assert(((-s * one) * t) / one == -s * t) by {
        assert((-s * one) * t == (-s * t) * one) by (nonlinear_arith);
    }
    assert(prod_fx(0, t) == 0);
    assert(comp(p, a) == if s == 1 {
        hi
    } else {
        lo
    });
    assert(comp(p, b1) == comp(ray.origin, b1));
    assert(comp(p, b2) == comp(ray.origin, b2));
    assert forall|b: int| 0 <= b < 3 && b != a implies abs(
        offset2(#[trigger] comp(p, b), comp(c.min, b), comp(c.max, b)),
    ) < comp(c.max, b) - comp(c.min, b) by {
        assert(b == b1 || b == b2);
    }
    assert forall|b: int| 0 <= b < 3 implies #[trigger] comp(c.min, b) < comp(c.max, b) by {
        if b != a {
            assert(comp(c.min, b) < comp(ray.origin, b) < comp(c.max, b));
        }
    }
    lemma_face_axis_dominant(c, p, a);
}

/// Entry and exit parameters on one slab.
fn slab_exec(o: i64, d: i64, lo: i64, hi: i64) -> (r: (i64, i64))
    ensures
        (r.0 as int, r.1 as int) == slab(o as int, d as int, lo as int, hi as int),
{
    if d > 0 {
        (fx_div(fx_sub(lo, o), d), fx_div(fx_sub(hi, o), d))
    } else if d < 0 {
        (fx_div(fx_sub(hi, o), d), fx_div(fx_sub(lo, o), d))
    } else if lo <= o && o <= hi {
        (NEG_INF, POS_INF)
    } else {
        (POS_INF, NEG_INF)
    }
}

fn offset2_exec(p: i64, lo: i64, hi: i64) -> (r: i64)
    ensures
        r == offset2(p as int, lo as int, hi as int),
        -LIMIT <= r <= LIMIT,
{
    fx_sub(fx_sub(p, lo), fx_sub(hi, p))
}

fn face_coord_exec(p: i64, lo: i64, hi: i64) -> (r: i64)
    ensures
        r == face_coord(p as int, lo as int, hi as int),
{
    let half = fx_mul(fx_sub(hi, lo), HALF);
    let rel = fx_sub(p, fx_add(lo, half));
    let q = if half == 0 {
        0
    } else {
        fx_div(rel, half)
    };
    fx_mul(fx_add(q, ONE), HALF)
}

impl Cube {
    /// The box centered at `center` with edge lengths `size`.
    pub fn new(center: Vec3, size: Vec3, material: Material) -> (r: Cube)
        ensures
            r.min == vsub(center, vscale(size, HALF as int)),
            r.max == vadd(center, vscale(size, HALF as int)),
            r.material == material,
    {
        let half = size.scale(HALF);
        Cube { min: center.sub(half), max: center.add(half), material }
    }

    fn select_face_axis(&self, p: Vec3) -> (a: u8)
        ensures
            a == face_axis(*self, p),
            a < 3,
    {
        let ax = offset2_exec(p.x, self.min.x, self.max.x) as i128;
        let ay = offset2_exec(p.y, self.min.y, self.max.y) as i128;
        let az = offset2_exec(p.z, self.min.z, self.max.z) as i128;
        let ax = if ax < 0 {
            -ax
        } else {
            ax
        };
        let ay = if ay < 0 {
            -ay
        } else {
            ay
        };
        let az = if az < 0 {
            -az
        } else {
            az
        };
        let ex = fx_sub(self.max.x, self.min.x) as i128;
        let ey = fx_sub(self.max.y, self.min.y) as i128;
        let ez = fx_sub(self.max.z, self.min.z) as i128;
        proof {
            let l = LIMIT as int;
            assert forall|m: int, n: int| -l <= m <= l && -l <= n <= l implies -(l * l) <= #[trigger] (m * n) <= l
                * l by {
                assert(-(l * l) <= m * n <= l * l) by (nonlinear_arith)
                    requires
                        -l <= m <= l,
                        -l <= n <= l,
                ;
            }
        }
        if ax * ey >= ay * ex && ax * ez >= az * ex {
            0
        } else if ay * ex >= ax * ey && ay * ez >= az * ey {
            1
        } else {
            2
        }
    }

    /// Outward normal of the face on axis `a` nearest to `p`.
    fn calculate_normal(&self, p: Vec3, a: u8) -> (r: Vec3)
        requires
            a == face_axis(*self, p),
        ensures
            r == cube_normal(*self, p),
    {
        let off = if a == 0 {
            offset2_exec(p.x, self.min.x, self.max.x)
        } else if a == 1 {
            offset2_exec(p.y, self.min.y, self.max.y)
        } else {
            offset2_exec(p.z, self.min.z, self.max.z)
        };
        let side = if off > 0 {
            ONE
        } else {
            -ONE
        };
        if a == 0 {
            Vec3::new(side, 0, 0)
        } else if a == 1 {
            Vec3::new(0, side, 0)
        } else {
            Vec3::new(0, 0, side)
        }
    }

    fn calculate_uv(&self, p: Vec3, a: u8) -> (r: (i64, i64))
        requires
            a < 3,
        ensures
            (r.0 as int, r.1 as int) == cube_uv(*self, p, a as int),
    {
        let fx = face_coord_exec(p.x, self.min.x, self.max.x);
        let fy = face_coord_exec(p.y, self.min.y, self.max.y);
        let fz = face_coord_exec(p.z, self.min.z, self.max.z);
        if a == 0 {
            (fz, fy)
        } else if a == 1 {
            (fx, fz)
        } else {
            (fx, fy)
        }
    }

    pub fn hit(&self, ray: &Ray) -> (r: Option<HitRecord>)
        ensures
            r == cube_hit(*self, *ray),
    {
        let o = ray.origin;
        let d = ray.direction;
        let (e0, x0) = slab_exec(o.x, d.x, self.min.x, self.max.x);
        let (e1, x1) = slab_exec(o.y, d.y, self.min.y, self.max.y);
        let (e2, x2) = slab_exec(o.z, d.z, self.min.z, self.max.z);
        let t_min = if e0 >= e1 && e0 >= e2 {
            e0
        } else if e1 >= e2 {
            e1
        } else {
            e2
        };
        let t_max = if x0 <= x1 && x0 <= x2 {
            x0
        } else if x1 <= x2 {
            x1
        } else {
            x2
        };
        let t = if t_min > EPSILON {
            t_min
        } else {
            t_max
        };
        if t_max < t_min || t <= EPSILON || t >= LIMIT {
            return None;
        }
        let p = ray.at(t);
        let a = self.select_face_axis(p);
        let n = self.calculate_normal(p, a);
        let (u, v) = self.calculate_uv(p, a);
        Some(HitRecord::new(p, n, t, ray, self.material, u, v))
    }
}

impl Plane {
    /// The plane through `point` with normal `normal` (normalized here).
    pub fn new(point: Vec3, normal: Vec3, material: Material) -> (r: Plane)
        ensures
            r == (Plane { point, normal: crate::vector::vnormalize(normal), material }),
    {
        Plane { point, normal: normal.normalize(), material }
    }

    pub fn hit(&self, ray: &Ray) -> (r: Option<HitRecord>)
        ensures
            r == plane_hit(*self, *ray),
    {
        let denom = self.normal.dot(ray.direction);
        if -EPSILON < denom && denom < EPSILON {
            return None;
        }
        let t = fx_div(self.point.sub(ray.origin).dot(self.normal), denom);
        if t <= EPSILON || t >= LIMIT {
            return None;
        }
        Some(HitRecord::new(ray.at(t), self.normal, t, ray, self.material, 0, 0))
    }
}

impl Primitive {
    pub fn hit(&self, ray: &Ray) -> (r: Option<HitRecord>)
        ensures
            r == prim_hit(*self, *ray),
    {
        proof {
            reveal(prim_hit);
        }
        match self {
            Primitive::Cube(c) => c.hit(ray),
            Primitive::Plane(p) => p.hit(ray),
        }
    }
}

/// The primitives of a scene, scanned in order.
pub struct HittableList {
    pub objects: Vec<Primitive>,
}

impl HittableList {
    pub fn new() -> (r: HittableList)
        ensures
            r.objects@ == Seq::<Primitive>::empty(),
    {
        HittableList { objects: Vec::new() }
    }

    pub fn add(&mut self, object: Primitive)
        ensures
            final(self).objects@ == old(self).objects@.push(object),
    {
        self.objects.push(object);
    }

    /// The closest hit along `ray` over all primitives.
    pub fn hit(&self, ray: &Ray) -> (r: Option<HitRecord>)
        ensures
            r == nearest_hit(self.objects@, *ray),
    {
        let mut closest: Option<HitRecord> = None;
        let mut i: usize = 0;
        while i < self.objects.len()
            invariant
                i <= self.objects@.len(),
                closest == nearest_hit(self.objects@.take(i as int), *ray),
            decreases self.objects@.len() - i,
        {
            let h = self.objects[i].hit(ray);
            proof {
                assert(self.objects@.take(i + 1).drop_last() =~= self.objects@.take(i as int));
            }
            match h {
                Some(rec) => {
                    let closer = match closest {
                        None => true,
                        Some(b) => rec.t < b.t,
                    };
                    if closer {
                        closest = Some(rec);
                    }
                },
                None => {},
            }
            i = i + 1;
        }
        proof {
            assert(self.objects@.take(self.objects@.len() as int) =~= self.objects@);
        }
        closest
    }
}

} // verus!
