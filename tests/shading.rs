use raytracer::camera::Camera;
use raytracer::fixed::{fx_sub, ONE};
use raytracer::geometry::{Cube, Plane};
use raytracer::light::Light;
use raytracer::material::{Albedo, Material};
use raytracer::ray::Ray;
use raytracer::raytracer::{calculate_lighting, cast_ray, refract};
use raytracer::render::{vector3_to_color, Color, Raytracer};
use raytracer::scene::{offset_origin, procedural_sky, Background, Scene};
use raytracer::vector::{reflect, Vec3};

const HALF: i64 = ONE / 2;
const QUARTER: i64 = ONE / 4;

fn albedo(diffuse: i64, specular: i64, reflective: i64, transmissive: i64) -> Albedo {
    Albedo { diffuse, specular, reflective, transmissive }
}

fn cube(center: (i64, i64, i64), size: i64, m: Material) -> Cube {
    Cube::new(Vec3::new(center.0, center.1, center.2), Vec3::new(size, size, size), m)
}

fn dir(x: i64, y: i64, z: i64) -> Vec3 {
    Vec3::new(x, y, z).normalize()
}

#[test]
fn miss_returns_background_whatever_lights_and_depth() {
    let mut scene = Scene::new();
    scene.add_cube(cube((0, 0, -5 * ONE), 2 * ONE, Material::black()));
    scene.add_light(Light::new(Vec3::new(0, 5 * ONE, 0), Vec3::new(ONE, ONE, ONE), ONE));
    let bg = Vec3::new(6554, 6554, 13107);
    let d = dir(0, ONE, 0);
    assert_eq!(cast_ray(&scene, Vec3::zero(), d, 0), bg);
    assert_eq!(cast_ray(&scene, Vec3::zero(), d, 2), bg);
    scene.set_background_color(Vec3::new(1, 2, 3));
    assert_eq!(cast_ray(&scene, Vec3::zero(), d, 1), Vec3::new(1, 2, 3));
}

#[test]
fn miss_returns_procedural_sky() {
    let ground = Vec3::new(HALF, 13107, 13107);
    let horizon = Vec3::new(6554, 3277, 3277);
    let zenith = Vec3::new(0, 0, ONE);
    let mut scene = Scene::new();
    scene.background = Background::Sky { ground, horizon, zenith };
    assert_eq!(cast_ray(&scene, Vec3::zero(), dir(0, ONE, 0), 0), zenith);
    assert_eq!(cast_ray(&scene, Vec3::zero(), dir(0, -ONE, 0), 0), ground);
    assert_eq!(cast_ray(&scene, Vec3::zero(), dir(ONE, 0, 0), 0), Vec3::new(8937, 4170, 4170));
    let d = dir(ONE, HALF, 0);
    assert_eq!(cast_ray(&scene, Vec3::zero(), d, 0), procedural_sky(d, ground, horizon, zenith));
}

#[test]
fn depth_past_cap_returns_background() {
    let mut scene = Scene::new();
    scene.add_cube(cube((0, 0, -5 * ONE), 2 * ONE, Material::black()));
    let d = dir(0, 0, -ONE);
    assert_eq!(cast_ray(&scene, Vec3::zero(), d, 4), Vec3::new(6554, 6554, 13107));
    assert_eq!(cast_ray(&scene, Vec3::zero(), d, 3), Vec3::zero());
}

#[test]
fn unlit_opaque_surface_shows_emission_only() {
    let glow = Vec3::new(HALF, 0, QUARTER);
    let m = Material::new(Vec3::new(ONE, ONE, ONE), 10, albedo(ONE, ONE, 0, 0), ONE).with_emission(glow);
    let mut scene = Scene::new();
    scene.add_cube(cube((0, 0, -5 * ONE), 2 * ONE, m));
    assert_eq!(cast_ray(&scene, Vec3::zero(), dir(0, 0, -ONE), 0), glow);
    assert_eq!(cast_ray(&scene, Vec3::new(HALF, 0, 0), dir(0, 0, -ONE), 1), glow);
}

#[test]
fn color_is_energy_weighted_blend() {
    let r = QUARTER;
    let t = QUARTER;
    let m = Material::new(Vec3::new(ONE, HALF, QUARTER), 8, albedo(HALF, HALF, r, t), 3 * HALF)
        .with_emission(Vec3::new(100, 200, 300));
    let mut scene = Scene::new();
    scene.add_cube(cube((0, 0, -5 * ONE), 2 * ONE, m));
    scene.add_cube(cube((-ONE, 0, 4 * ONE), 2 * ONE, Material::new(Vec3::new(0, ONE, 0), 1, albedo(ONE, 0, 0, 0), ONE)));
    scene.add_light(Light::new(Vec3::new(ONE, 3 * ONE, 0), Vec3::new(ONE, ONE, ONE), ONE));
    scene.set_background_color(Vec3::new(ONE, 0, ONE));
    let o = Vec3::new(HALF, HALF, 0);
    let d = dir(-QUARTER / 2, 0, -ONE);
    let h = scene.hit(&Ray { origin: o, direction: d }).unwrap();
    let local = calculate_lighting(&scene, &h, d.neg());
    let rd = reflect(d, h.normal).normalize();
    let reflected = cast_ray(&scene, offset_origin(&h, rd, scene.bias), rd, 1);
    let td = refract(d, h.normal, 3 * HALF).unwrap();
    let transmitted = cast_ray(&scene, offset_origin(&h, td, scene.bias), td, 1);
    let expected = local
        .scale(fx_sub(fx_sub(ONE, r), t))
        .add(reflected.scale(r))
        .add(transmitted.scale(t))
        .add(Vec3::new(100, 200, 300));
    assert_ne!(local, Vec3::zero());
    assert_ne!(reflected, Vec3::new(ONE, 0, ONE));
    assert_eq!(cast_ray(&scene, o, d, 0), expected);
}

#[test]
fn facing_mirrors_terminate_at_every_depth_cap() {
    let mirror = Material::new(Vec3::zero(), 1, albedo(0, 0, ONE, 0), ONE);
    for cap in [1u8, 3, 5] {
        let mut scene = Scene::new();
        scene.max_depth = cap;
        scene.add_plane(Plane::new(Vec3::new(0, ONE, 0), Vec3::new(0, -ONE, 0), mirror));
        scene.add_plane(Plane::new(Vec3::new(0, -ONE, 0), Vec3::new(0, ONE, 0), mirror));
        scene.set_background_color(Vec3::new(123, 456, 789));
        assert_eq!(cast_ray(&scene, Vec3::zero(), dir(0, ONE, 0), 0), Vec3::new(123, 456, 789));
        assert_eq!(cast_ray(&scene, Vec3::zero(), dir(HALF, ONE, 0), 0), Vec3::new(123, 456, 789));
    }
}

#[test]
fn refraction_straight_through_keeps_direction() {
    assert_eq!(refract(Vec3::new(0, 0, -ONE), Vec3::new(0, 0, ONE), 3 * HALF), Some(Vec3::new(0, 0, -ONE)));
}

#[test]
fn total_internal_reflection_matches_mirror_ray() {
    let glass = Material::new(Vec3::new(ONE, ONE, ONE), 10, albedo(0, 0, 0, ONE), 3 * HALF);
    let mut scene = Scene::new();
    scene.add_cube(cube((0, 0, 0), 2 * ONE, glass));
    scene.add_cube(cube((0, 0, -4 * ONE), 2 * ONE, Material::new(Vec3::zero(), 1, albedo(0, 0, 0, 0), ONE)
        .with_emission(Vec3::new(ONE, 0, 0))));
    scene.set_background_color(Vec3::new(0, ONE, 0));
    let o = Vec3::new(HALF, 0, -58982);
    let d = dir(ONE, 0, 3 * ONE);
    assert_eq!(refract(d, Vec3::new(ONE, 0, 0), 3 * HALF), None);
    let h = scene.hit(&Ray { origin: o, direction: d }).unwrap();
    assert!(!h.front_face);
    assert_eq!(h.normal, Vec3::new(-ONE, 0, 0));
    let rd = reflect(d, h.normal).normalize();
    let mirrored = cast_ray(&scene, offset_origin(&h, rd, scene.bias), rd, 1);
    assert_eq!(cast_ray(&scene, o, d, 0), mirrored);
}

fn shadow_scene(with_occluder: bool) -> Scene {
    let mut scene = Scene::new();
    let floor = Material::new(Vec3::new(ONE, ONE, ONE), 4, albedo(ONE, ONE, 0, 0), ONE);
    scene.add_cube(cube((0, -2 * ONE, 0), 2 * ONE, floor));
    if with_occluder {
        scene.add_cube(cube((2 * ONE, ONE, 0), ONE, Material::black()));
    }
    scene.add_light(Light::new(Vec3::new(4 * ONE, 3 * ONE, 0), Vec3::new(ONE, ONE, ONE), ONE));
    scene
}

#[test]
fn occluder_zeroes_light_and_removal_restores_it() {
    let d = dir(0, -ONE, 0);
    let o = Vec3::new(0, 5 * ONE, 0);
    let shadowed = shadow_scene(true);
    let lit = shadow_scene(false);
    let hs = shadowed.hit(&Ray { origin: o, direction: d }).unwrap();
    let hl = lit.hit(&Ray { origin: o, direction: d }).unwrap();
    assert_eq!(hs, hl);
    assert_eq!(hs.point, Vec3::new(0, -ONE, 0));
    let light = shadowed.lights[0];
    assert!(shadowed.is_in_shadow(&hs, &light));
    assert!(!lit.is_in_shadow(&hl, &light));
    assert_eq!(shadowed.get_lights_affecting_point(&hs), vec![(light, true)]);
    assert_eq!(lit.get_lights_affecting_point(&hl), vec![(light, false)]);
    assert_eq!(calculate_lighting(&shadowed, &hs, d.neg()), Vec3::zero());
    let restored = calculate_lighting(&lit, &hl, d.neg());
    assert!(restored.x > 60000 && restored.x < 64000);
    assert_eq!(cast_ray(&shadowed, o, d, 0), Vec3::zero());
    assert_eq!(cast_ray(&lit, o, d, 0), restored);
}

#[test]
fn pixel_conversion_clamps_and_scales() {
    assert_eq!(vector3_to_color(Vec3::new(-5, HALF, 2 * ONE)), Color { r: 0, g: 127, b: 255, a: 255 });
    assert_eq!(vector3_to_color(Vec3::new(ONE - 1, ONE, 0)), Color { r: 254, g: 255, b: 0, a: 255 });
}

#[test]
fn render_traces_one_ray_per_pixel() {
    let mut scene = Scene::new();
    scene.add_cube(cube((0, 0, -4 * ONE), 2 * ONE, Material::new(Vec3::new(ONE, HALF, 0), 8, albedo(ONE, HALF, 0, 0), ONE)));
    scene.add_light(Light::new(Vec3::new(0, 4 * ONE, 0), Vec3::new(ONE, ONE, ONE), ONE));
    let cam = Camera::new(Vec3::zero(), Vec3::new(0, 0, -ONE), Vec3::new(0, ONE, 0), 37837, 4 * ONE / 3);
    assert_eq!(cam.forward, Vec3::new(0, 0, -ONE));
    assert_eq!(cam.right, Vec3::new(ONE, 0, 0));
    assert_eq!(cam.camera_up, Vec3::new(0, ONE, 0));
    let image = Raytracer::new(4, 3).render(&scene, &cam);
    assert_eq!(image.len(), 3);
    for (y, row) in image.iter().enumerate() {
        assert_eq!(row.len(), 4);
        for (x, px) in row.iter().enumerate() {
            let u = (x as i64) * ONE / 3;
            let v = ((2 - y) as i64) * ONE / 2;
            let ray = cam.get_ray(u, v);
            assert_eq!(*px, vector3_to_color(cast_ray(&scene, ray.origin, ray.direction, 0)));
        }
    }
    let center = cam.get_ray(HALF, HALF);
    assert_eq!(center.direction, Vec3::new(0, 0, -ONE));
    assert_ne!(image[1][1], vector3_to_color(Vec3::new(6554, 6554, 13107)));
}

#[test]
fn phong_terms_exact_for_light_overhead() {
    let mut scene = Scene::new();
    let m = Material::new(Vec3::new(ONE, HALF, 0), 7, albedo(HALF, QUARTER, 0, 0), ONE);
    scene.add_cube(cube((0, -2 * ONE, 0), 2 * ONE, m));
    scene.add_light(Light::new(Vec3::new(0, 3 * ONE, 0), Vec3::new(ONE, ONE, ONE), HALF));
    let d = dir(0, -ONE, 0);
    let h = scene.hit(&Ray { origin: Vec3::new(0, 5 * ONE, 0), direction: d }).unwrap();
    assert_eq!(h.normal, Vec3::new(0, ONE, 0));
    assert_eq!(calculate_lighting(&scene, &h, d.neg()), Vec3::new(24576, 16384, 8192));
}
