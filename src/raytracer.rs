//! The shading and transport engine: local Phong lighting with hard shadows,
//! recursive reflection and refraction, blended by the material's energy split.
use vstd::prelude::*;
use crate::fixed::{fx_div, fx_max, fx_mul, fx_pow, fx_sqrt, fx_sub, diff_fx, max_fx, power_fx, prod_fx, quot_fx, root_fx, LIMIT, ONE};
use crate::geometry::{lemma_nearest_hit_is_closest, nearest_hit, prim_hit, HitRecord};
use crate::light::{effective_intensity, light_dir, light_distance, Light};
use crate::material::{pattern_color, Albedo};
use crate::ray::Ray;
use crate::scene::{background_color, biased_origin, blocks, occluded, offset_origin, scene_prims, shadow_ray, Scene};
use crate::vector::{reflect, vadd, vdot, vneg, vnormalize, vreflect, vscale, vzero, Vec3};

verus! {

/// Refracted direction of `incident` through a surface with normal `normal`
/// between air and a medium of index `ior` (Snell's law); `None` on total
/// internal reflection.
pub open spec fn refract_dir(incident: Vec3, normal: Vec3, ior: int) -> Option<Vec3> {
    let c = vdot(incident, normal);
    let c = if c < -ONE {
        -ONE
    } else if c > ONE {
        ONE as int
    } else {
        c
    };
    let exiting = c > 0;
    let etai = if exiting {
        ior
    } else {
        ONE as int
    };
    let etat = if exiting {
        ONE as int
    } else {
        ior
    };
    let n = if exiting {
        vneg(normal)
    } else {
        normal
    };
    let cosi = if exiting {
        c
    } else {
        -c
    };
    let eta = quot_fx(etai, etat);
    let k = diff_fx(ONE as int, prod_fx(prod_fx(eta, eta), diff_fx(ONE as int, prod_fx(cosi, cosi))));
    if k < 0 {
        None
    } else {
        Some(vadd(vscale(incident, eta), vscale(n, diff_fx(prod_fx(eta, cosi), root_fx(k)))))
    }
}

/// The geometric normal of a hit, pointing out of the solid.
pub open spec fn outward_normal(h: HitRecord) -> Vec3 {
    if h.front_face {
        h.normal
    } else {
        vneg(h.normal)
    }
}

/// Direction of the mirror ray for `dir` hitting a surface with normal `normal`.
pub open spec fn mirror_dir(dir: Vec3, normal: Vec3) -> Vec3 {
    vnormalize(vreflect(dir, normal))
}

/// Diffuse and specular contribution of an unshadowed light at a hit seen
/// along `view`.
pub open spec fn lit_terms(hit: HitRecord, view: Vec3, light: Light) -> (Vec3, Vec3) {
    let ldir = light_dir(light, hit.point);
    let li = effective_intensity(light, hit.point);
    let base = pattern_color(hit.material.color, hit.point);
    let diffuse = vscale(base, prod_fx(max_fx(vdot(hit.normal, ldir), 0), li));
    let rdir = mirror_dir(vneg(ldir), hit.normal);
    let strength = prod_fx(power_fx(max_fx(vdot(view, rdir), 0), hit.material.specular as nat), li);
    (diffuse, vscale(light.color, strength))
}

/// Contribution of one light: nothing where it is occluded.
pub open spec fn light_terms(scene: &Scene, hit: HitRecord, view: Vec3, light: Light) -> (Vec3, Vec3) {
    if occluded(scene_prims(scene), scene.bias as int, hit, light) {
        (vzero(), vzero())
    } else {
        lit_terms(hit, view, light)
    }
}

/// Diffuse and specular contributions summed over `lights` in order.
pub open spec fn lights_sum(scene: &Scene, hit: HitRecord, view: Vec3, lights: Seq<Light>) -> (Vec3, Vec3)
    decreases lights.len(),
{
    if lights.len() == 0 {
        (vzero(), vzero())
    } else {
        let (d, s) = lights_sum(scene, hit, view, lights.drop_last());
        let (dl, sl) = light_terms(scene, hit, view, lights.last());
        (vadd(d, dl), vadd(s, sl))
    }
}

/// The local Phong term: summed diffuse and specular weighted by the albedo.
pub open spec fn local_color(scene: &Scene, hit: HitRecord, view: Vec3) -> Vec3 {
    let (d, s) = lights_sum(scene, hit, view, scene.lights@);
    vadd(vscale(d, hit.material.albedo.diffuse as int), vscale(s, hit.material.albedo.specular as int))
}

/// `local * (1 - r - t) + reflected * r + transmitted * t + emission`.
/// Weights with `r + t > 1` are taken as given: the local term then enters
/// with a negative weight, and nothing is clamped beyond saturation.
pub open spec fn blend(local: Vec3, reflected: Vec3, transmitted: Vec3, albedo: Albedo, emission: Vec3) -> Vec3 {
    let r = albedo.reflective as int;
    let t = albedo.transmissive as int;
    vadd(
        vadd(vadd(vscale(local, diff_fx(diff_fx(ONE as int, r), t)), vscale(reflected, r)), vscale(transmitted, t)),
        emission,
    )
}

/// Color seen along the ray from `origin` along `dir` at recursion `depth`.
pub open spec fn trace_color(scene: &Scene, origin: Vec3, dir: Vec3, depth: int) -> Vec3
    decreases scene.max_depth + 1 - depth,
{
    if depth > scene.max_depth {
        background_color(scene.background, dir)
    } else {
        match nearest_hit(scene_prims(scene), Ray { origin, direction: dir }) {
            None => background_color(scene.background, dir),
            Some(h) => {
                let m = h.material;
                let rd = mirror_dir(dir, h.normal);
                let ro = biased_origin(h.point, h.normal, rd, scene.bias as int);
                let reflected = if m.albedo.reflective > 0 {
                    trace_color(scene, ro, rd, depth + 1)
                } else {
                    vzero()
                };
                let transmitted = if m.albedo.transmissive > 0 {
                    match refract_dir(dir, outward_normal(h), m.refractive_index as int) {
                        Some(td) => trace_color(
                            scene,
                            biased_origin(h.point, h.normal, td, scene.bias as int),
                            td,
                            depth + 1,
                        ),
                        None => trace_color(scene, ro, rd, depth + 1),
                    }
                } else {
                    vzero()
                };
                blend(local_color(scene, h, vneg(dir)), reflected, transmitted, m.albedo, m.emission)
            },
        }
    }
}

/// Color of the mirror ray leaving the hit `h` of a ray along `dir`.
pub open spec fn mirror_color(scene: &Scene, h: HitRecord, dir: Vec3, depth: int) -> Vec3 {
    let rd = mirror_dir(dir, h.normal);
    trace_color(scene, biased_origin(h.point, h.normal, rd, scene.bias as int), rd, depth + 1)
}

/// The reflective contribution at a hit: the mirror ray where the material reflects.
pub open spec fn reflected_color(scene: &Scene, h: HitRecord, dir: Vec3, depth: int) -> Vec3 {
    if h.material.albedo.reflective > 0 {
        mirror_color(scene, h, dir, depth)
    } else {
        vzero()
    }
}

/// The transmissive contribution at a hit: the refracted ray, or the mirror
/// ray on total internal reflection, where the material transmits.
pub open spec fn transmitted_color(scene: &Scene, h: HitRecord, dir: Vec3, depth: int) -> Vec3 {
    if h.material.albedo.transmissive > 0 {
        match refract_dir(dir, outward_normal(h), h.material.refractive_index as int) {
            Some(td) => trace_color(scene, biased_origin(h.point, h.normal, td, scene.bias as int), td, depth + 1),
            None => mirror_color(scene, h, dir, depth),
        }
    } else {
        vzero()
    }
}

/// A ray that misses every primitive sees the background, whatever the
/// lights and the depth.
pub proof fn lemma_miss_sees_background(scene: &Scene, origin: Vec3, dir: Vec3, depth: int)
    requires
        forall|i: int|
            0 <= i < scene_prims(scene).len() ==> (#[trigger] prim_hit(
                scene_prims(scene)[i],
                Ray { origin, direction: dir },
            )) is None,
    ensures
        trace_color(scene, origin, dir, depth) == background_color(scene.background, dir),
{
    lemma_nearest_hit_is_closest(scene_prims(scene), Ray { origin, direction: dir });
}

/// Past the depth cap every ray sees the background.
pub proof fn lemma_depth_cap(scene: &Scene, origin: Vec3, dir: Vec3, depth: int)
    requires
        depth > scene.max_depth,
    ensures
        trace_color(scene, origin, dir, depth) == background_color(scene.background, dir),
{
}

/// At a hit, the color is the local term, the reflected color and the
/// transmitted color blended by the material's energy split, plus emission.
pub proof fn lemma_energy_split(scene: &Scene, origin: Vec3, dir: Vec3, depth: int, h: HitRecord)
    requires
        0 <= depth <= scene.max_depth,
        nearest_hit(scene_prims(scene), Ray { origin, direction: dir }) == Some(h),
    ensures
        trace_color(scene, origin, dir, depth) == blend(
            local_color(scene, h, vneg(dir)),
            reflected_color(scene, h, dir, depth),
            transmitted_color(scene, h, dir, depth),
            h.material.albedo,
            h.material.emission,
        ),
{
}

/// Under total internal reflection the transmitted contribution is exactly
/// the mirror ray's color.
pub proof fn lemma_total_internal_reflection(scene: &Scene, h: HitRecord, dir: Vec3, depth: int)
    requires
        h.material.albedo.transmissive > 0,
        refract_dir(dir, outward_normal(h), h.material.refractive_index as int) is None,
    ensures
        transmitted_color(scene, h, dir, depth) == mirror_color(scene, h, dir, depth),
{
}

/// A color whose components saturation leaves unchanged.
pub open spec fn in_range(v: Vec3) -> bool {
    &&& -LIMIT <= v.x <= LIMIT
    &&& -LIMIT <= v.y <= LIMIT
    &&& -LIMIT <= v.z <= LIMIT
}

proof fn lemma_lights_sum_empty(scene: &Scene, hit: HitRecord, view: Vec3)
    requires
        scene.lights@.len() == 0,
    ensures
        local_color(scene, hit, view) == vzero(),
{
    assert(lights_sum(scene, hit, view, scene.lights@) == (vzero(), vzero()));
}

/// A hit on an opaque, non-reflective surface of a scene without lights
/// shows the material's emission alone.
pub proof fn lemma_unlit_shows_emission(scene: &Scene, origin: Vec3, dir: Vec3, depth: int, h: HitRecord)
    requires
        0 <= depth <= scene.max_depth,
        scene.lights@.len() == 0,
        nearest_hit(scene_prims(scene), Ray { origin, direction: dir }) == Some(h),
        h.material.albedo.reflective == 0,
        h.material.albedo.transmissive == 0,
        in_range(h.material.emission),
    ensures
        trace_color(scene, origin, dir, depth) == h.material.emission,
{
    lemma_lights_sum_empty(scene, h, vneg(dir));
    let e = h.material.emission;
    assert(trace_color(scene, origin, dir, depth) == blend(vzero(), vzero(), vzero(), h.material.albedo, e));
    assert(blend(vzero(), vzero(), vzero(), h.material.albedo, e) =~= e);
}

/// An occluded light contributes nothing, and taking away the only occluder
/// restores its full contribution.
pub proof fn lemma_shadow(scene: &Scene, other: &Scene, hit: HitRecord, view: Vec3, light: Light, k: int)
    requires
        0 <= k < scene_prims(scene).len(),
        scene_prims(other) == scene_prims(scene).remove(k),
        other.bias == scene.bias,
        blocks(
            prim_hit(scene_prims(scene)[k], shadow_ray(scene.bias as int, hit, light)),
            light_distance(light, hit.point),
        ),
        forall|i: int|
            0 <= i < scene_prims(scene).len() && i != k ==> !#[trigger] blocks(
                prim_hit(scene_prims(scene)[i], shadow_ray(scene.bias as int, hit, light)),
                light_distance(light, hit.point),
            ),
    ensures
        light_terms(scene, hit, view, light) == (vzero(), vzero()),
        light_terms(other, hit, view, light) == lit_terms(hit, view, light),
{
    let ps = scene_prims(scene);
    let qs = scene_prims(other);
    let ray = shadow_ray(scene.bias as int, hit, light);
    let dist = light_distance(light, hit.point);
    assert forall|j: int| 0 <= j < qs.len() implies !#[trigger] blocks(
        prim_hit(qs[j], ray),
        dist,
    ) by {
        if j < k {
            assert(qs[j] == ps[j]);
            assert(!blocks(prim_hit(ps[j], ray), dist));
        } else {
            assert(qs[j] == ps[j + 1]);
            assert(!blocks(prim_hit(ps[j + 1], ray), dist));
        }
    }
}

/// Refracted direction (Snell's law), or `None` on total internal reflection.
pub fn refract(incident: Vec3, normal: Vec3, refractive_index: i64) -> (r: Option<Vec3>)
    ensures
        r == refract_dir(incident, normal, refractive_index as int),
{
    let mut cosi = incident.dot(normal);
    if cosi < -ONE {
        cosi = -ONE;
    } else if cosi > ONE {
        cosi = ONE;
    }
    let exiting = cosi > 0;
    let (etai, etat) = if exiting {
        (refractive_index, ONE)
    } else {
        (ONE, refractive_index)
    };
    let n = if exiting {
        normal.neg()
    } else {
        normal
    };
    if !exiting {
        cosi = -cosi;
    }
    let eta = if etat == 0 {
        0
    } else {
        fx_div(etai, etat)
    };
    let k = fx_sub(ONE, fx_mul(fx_mul(eta, eta), fx_sub(ONE, fx_mul(cosi, cosi))));
    if k < 0 {
        None
    } else {
        Some(incident.scale(eta).add(n.scale(fx_sub(fx_mul(eta, cosi), fx_sqrt(k)))))
    }
}

/// Contribution of `light` at `hit` seen along `view`.
fn light_contribution(scene: &Scene, hit: &HitRecord, view: Vec3, light: &Light) -> (r: (Vec3, Vec3))
    ensures
        r == light_terms(scene, *hit, view, *light),
{
    if scene.is_in_shadow(hit, light) {
        return (Vec3::zero(), Vec3::zero());
    }
    let ldir = light.get_direction_from(hit.point);
    let li = light.get_effective_intensity(hit.point);
    let base = hit.material.get_diffuse_color(hit.point);
    let diffuse = base.scale(fx_mul(fx_max(hit.normal.dot(ldir), 0), li));
    let rdir = reflect(ldir.neg(), hit.normal).normalize();
    let strength = fx_mul(fx_pow(fx_max(view.dot(rdir), 0), hit.material.specular), li);
    (diffuse, light.color.scale(strength))
}

/// The local Phong term at `hit` seen along `view`.
pub fn calculate_lighting(scene: &Scene, hit: &HitRecord, view: Vec3) -> (r: Vec3)
    ensures
        r == local_color(scene, *hit, view),
{
    let mut total_diffuse = Vec3::zero();
    let mut total_specular = Vec3::zero();
    let mut i: usize = 0;
    while i < scene.lights.len()
        invariant
            i <= scene.lights@.len(),
            (total_diffuse, total_specular) == lights_sum(scene, *hit, view, scene.lights@.take(i as int)),
        decreases scene.lights@.len() - i,
    {
        let (d, s) = light_contribution(scene, hit, view, &scene.lights[i]);
        proof {
            assert(scene.lights@.take(i + 1).drop_last() =~= scene.lights@.take(i as int));
        }
        total_diffuse = total_diffuse.add(d);
        total_specular = total_specular.add(s);
        i = i + 1;
    }
    proof {
        assert(scene.lights@.take(scene.lights@.len() as int) =~= scene.lights@);
    }
    total_diffuse.scale(hit.material.albedo.diffuse).add(total_specular.scale(hit.material.albedo.specular))
}

/// Color seen along the ray from `origin` along `direction` (a unit vector)
/// at recursion `depth`.
pub fn cast_ray(scene: &Scene, origin: Vec3, direction: Vec3, depth: u32) -> (r: Vec3)
    ensures
        r == trace_color(scene, origin, direction, depth as int),
    decreases scene.max_depth + 1 - depth,
{
    if depth > scene.max_depth as u32 {
        return scene.get_background_color(direction);
    }
    let h = match scene.hit(&Ray { origin, direction }) {
        None => {
            return scene.get_background_color(direction);
        },
        Some(h) => h,
    };
    let albedo = h.material.albedo;
    let local = calculate_lighting(scene, &h, direction.neg());
    let rd = reflect(direction, h.normal).normalize();
    let ro = offset_origin(&h, rd, scene.bias);
    let reflected = if albedo.reflective > 0 {
        cast_ray(scene, ro, rd, depth + 1)
    } else {
        Vec3::zero()
    };
    let transmitted = if albedo.transmissive > 0 {
        let outward = if h.front_face {
            h.normal
        } else {
            h.normal.neg()
        };
        match refract(direction, outward, h.material.refractive_index) {
            Some(td) => cast_ray(scene, offset_origin(&h, td, scene.bias), td, depth + 1),
            None => cast_ray(scene, ro, rd, depth + 1),
        }
    } else {
        Vec3::zero()
    };
    let keep = fx_sub(fx_sub(ONE, albedo.reflective), albedo.transmissive);
    local.scale(keep).add(reflected.scale(albedo.reflective)).add(transmitted.scale(albedo.transmissive)).add(
        h.material.emission,
    )
}

} // verus!
