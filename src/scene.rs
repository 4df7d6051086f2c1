//! Scenes: primitives, lights, background and the settings of the transport
//! engine (depth cap and origin bias), with the queries the engine makes.
use vstd::prelude::*;
use crate::fixed::{fx_add, fx_div, fx_mul, fx_sub, diff_fx, prod_fx, quot_fx, sum_fx, ONE};
use crate::geometry::{nearest_hit, prim_hit, Cube, HitRecord, HittableList, Plane, Primitive, HALF};
use crate::light::{light_dir, light_distance, Light};
use crate::ray::Ray;
use crate::vector::{vadd, vdot, vnormalize, vscale, vsub, Vec3};

verus! {

/// Sky parameter below which the ground color fades into the horizon (0.54).
pub const SKY_LOW: i64 = 35389;

/// Sky parameter at which the horizon band ends (0.55).
pub const SKY_HORIZON: i64 = 36045;

/// Sky parameter above which the sky is the zenith color (0.8).
pub const SKY_HIGH: i64 = 52429;

/// Width of the band fading from horizon to zenith (0.25).
pub const SKY_FADE: i64 = 16384;

/// Default offset of secondary ray origins from a surface (about 1e-4).
pub const ORIGIN_BIAS: i64 = 7;

/// What a ray that hits nothing sees.
#[derive(Clone, Copy, Debug, PartialEq, Eq, Structural)]
pub enum Background {
    Solid(Vec3),
    /// A gradient keyed by the vertical component of the direction: ground
    /// fading into horizon, a horizon band, horizon fading into zenith.
    Sky { ground: Vec3, horizon: Vec3, zenith: Vec3 },
}

pub struct Scene {
    pub objects: HittableList,
    pub lights: Vec<Light>,
    pub background: Background,
    /// Rays deeper than this see the background.
    pub max_depth: u8,
    /// Offset of secondary ray origins along the surface normal.
    pub bias: i64,
}

/// `a` at `k = 0`, `b` at `k = 1`.
pub open spec fn lerp(a: Vec3, b: Vec3, k: int) -> Vec3 {
    vadd(vscale(a, diff_fx(ONE as int, k)), vscale(b, k))
}

pub open spec fn sky_color(dir: Vec3, ground: Vec3, horizon: Vec3, zenith: Vec3) -> Vec3 {
    let n = vnormalize(dir);
    let t = prod_fx(sum_fx(n.y as int, ONE as int), HALF as int);
    if t < SKY_LOW {
        lerp(ground, horizon, quot_fx(t, SKY_HORIZON as int))
    } else if t < SKY_HORIZON {
        horizon
    } else if t < SKY_HIGH {
        lerp(horizon, zenith, quot_fx(diff_fx(t, SKY_HORIZON as int), SKY_FADE as int))
    } else {
        zenith
    }
}

pub open spec fn background_color(bg: Background, dir: Vec3) -> Vec3 {
    match bg {
        Background::Solid(c) => c,
        Background::Sky { ground, horizon, zenith } => sky_color(dir, ground, horizon, zenith),
    }
}

/// `point` moved by `bias` along `normal`, to the side that `dir` leaves toward.
pub open spec fn biased_origin(point: Vec3, normal: Vec3, dir: Vec3, bias: int) -> Vec3 {
    let off = vscale(normal, bias);
    if vdot(dir, normal) < 0 {
        vsub(point, off)
    } else {
        vadd(point, off)
    }
}

/// The probe ray from a hit toward a light.
pub open spec fn shadow_ray(bias: int, hit: HitRecord, light: Light) -> Ray {
    let ldir = light_dir(light, hit.point);
    Ray { origin: biased_origin(hit.point, hit.normal, ldir, bias), direction: ldir }
}

/// A hit closer than `dist`.
pub open spec fn blocks(h: Option<HitRecord>, dist: int) -> bool {
    h matches Some(r) && r.t < dist
}

/// Some primitive lies on the probe ray strictly before the light.
pub open spec fn occluded(prims: Seq<Primitive>, bias: int, hit: HitRecord, light: Light) -> bool {
    exists|i: int|
        0 <= i < prims.len() && #[trigger] blocks(
            prim_hit(prims[i], shadow_ray(bias, hit, light)),
            light_distance(light, hit.point),
        )
}

pub open spec fn scene_prims(scene: &Scene) -> Seq<Primitive> {
    scene.objects.objects@
}

/// Color of the procedural sky for `dir`.
pub fn procedural_sky(dir: Vec3, ground: Vec3, horizon: Vec3, zenith: Vec3) -> (r: Vec3)
    ensures
        r == sky_color(dir, ground, horizon, zenith),
{
    let n = dir.normalize();
    let t = fx_mul(fx_add(n.y, ONE), HALF);
    if t < SKY_LOW {
        let k = fx_div(t, SKY_HORIZON);
        ground.scale(fx_sub(ONE, k)).add(horizon.scale(k))
    } else if t < SKY_HORIZON {
        horizon
    } else if t < SKY_HIGH {
        let k = fx_div(fx_sub(t, SKY_HORIZON), SKY_FADE);
        horizon.scale(fx_sub(ONE, k)).add(zenith.scale(k))
    } else {
        zenith
    }
}

/// Origin for a secondary ray along `direction` leaving the surface of `hit`.
pub fn offset_origin(hit: &HitRecord, direction: Vec3, bias: i64) -> (r: Vec3)
    ensures
        r == biased_origin(hit.point, hit.normal, direction, bias as int),
{
    let offset = hit.normal.scale(bias);
    if direction.dot(hit.normal) < 0 {
        hit.point.sub(offset)
    } else {
        hit.point.add(offset)
    }
}

impl Scene {
    /// An empty scene on a dark blue background, depth cap 3.
    pub fn new() -> (r: Scene)
        ensures
            scene_prims(&r) == Seq::<Primitive>::empty(),
            r.lights@ == Seq::<Light>::empty(),
            r.background == Background::Solid(Vec3 { x: 6554, y: 6554, z: 13107 }),
            r.max_depth == 3,
            r.bias == ORIGIN_BIAS,
    {
        Scene {
            objects: HittableList::new(),
            lights: Vec::new(),
            background: Background::Solid(Vec3::new(6554, 6554, 13107)),
            max_depth: 3,
            bias: ORIGIN_BIAS,
        }
    }

    pub fn set_background_color(&mut self, color: Vec3)
        ensures
            final(self).background == Background::Solid(color),
            scene_prims(final(self)) == scene_prims(old(self)),
            final(self).lights@ == old(self).lights@,
            final(self).max_depth == old(self).max_depth,
            final(self).bias == old(self).bias,
    {
        self.background = Background::Solid(color);
    }

    pub fn add_cube(&mut self, cube: Cube)
        ensures
            scene_prims(final(self)) == scene_prims(old(self)).push(Primitive::Cube(cube)),
            final(self).lights@ == old(self).lights@,
            final(self).background == old(self).background,
            final(self).max_depth == old(self).max_depth,
            final(self).bias == old(self).bias,
    {
        self.objects.add(Primitive::Cube(cube));
    }

    pub fn add_plane(&mut self, plane: Plane)
        ensures
            scene_prims(final(self)) == scene_prims(old(self)).push(Primitive::Plane(plane)),
            final(self).lights@ == old(self).lights@,
            final(self).background == old(self).background,
            final(self).max_depth == old(self).max_depth,
            final(self).bias == old(self).bias,
    {
        self.objects.add(Primitive::Plane(plane));
    }

    pub fn add_light(&mut self, light: Light)
        ensures
            final(self).lights@ == old(self).lights@.push(light),
            scene_prims(final(self)) == scene_prims(old(self)),
            final(self).background == old(self).background,
            final(self).max_depth == old(self).max_depth,
            final(self).bias == old(self).bias,
    {
        self.lights.push(light);
    }

    /// The closest hit along `ray`.
    pub fn hit(&self, ray: &Ray) -> (r: Option<HitRecord>)
        ensures
            r == nearest_hit(scene_prims(self), *ray),
    {
        self.objects.hit(ray)
    }

    /// What a ray along `dir` that hits nothing sees.
    pub fn get_background_color(&self, dir: Vec3) -> (r: Vec3)
        ensures
            r == background_color(self.background, dir),
    {
        match self.background {
            Background::Solid(c) => c,
            Background::Sky { ground, horizon, zenith } => procedural_sky(dir, ground, horizon, zenith),
        }
    }

    /// Whether a primitive lies between the surface of `hit` and `light`.
    pub fn is_in_shadow(&self, hit: &HitRecord, light: &Light) -> (r: bool)
        ensures
            r == occluded(scene_prims(self), self.bias as int, *hit, *light),
    {
        let dir = light.get_direction_from(hit.point);
        let dist = light.get_distance_from(hit.point);
        let ray = Ray { origin: offset_origin(hit, dir, self.bias), direction: dir };
        assert(ray == shadow_ray(self.bias as int, *hit, *light));
        let mut i: usize = 0;
        while i < self.objects.objects.len()
            invariant
                i <= scene_prims(self).len(),
                ray == shadow_ray(self.bias as int, *hit, *light),
                dist == light_distance(*light, hit.point),
                forall|j: int|
                    0 <= j < i ==> !#[trigger] blocks(prim_hit(scene_prims(self)[j], ray), dist as int),
            decreases scene_prims(self).len() - i,
        {
            match self.objects.objects[i].hit(&ray) {
                Some(h) => {
                    if h.t < dist {
                        assert(blocks(prim_hit(scene_prims(self)[i as int], ray), dist as int));
                        return true;
                    }
                },
                None => {},
            }
            i = i + 1;
        }
        false
    }

    /// Each light of the scene, in order, with whether it is occluded at `hit`.
    pub fn get_lights_affecting_point(&self, hit: &HitRecord) -> (r: Vec<(Light, bool)>)
        ensures
            r@.len() == self.lights@.len(),
            forall|i: int|
                0 <= i < r@.len() ==> #[trigger] r@[i] == (
                    self.lights@[i],
                    occluded(scene_prims(self), self.bias as int, *hit, self.lights@[i]),
                ),
    {
        let mut affecting: Vec<(Light, bool)> = Vec::new();
        let mut i: usize = 0;
        while i < self.lights.len()
            invariant
                i <= self.lights@.len(),
                affecting@.len() == i,
                forall|j: int|
                    0 <= j < i ==> #[trigger] affecting@[j] == (
                        self.lights@[j],
                        occluded(scene_prims(self), self.bias as int, *hit, self.lights@[j]),
                    ),
            decreases self.lights@.len() - i,
        {
            let light = self.lights[i];
            let shadowed = self.is_in_shadow(hit, &light);
            affecting.push((light, shadowed));
            i = i + 1;
        }
        affecting
    }
}

} // verus!
