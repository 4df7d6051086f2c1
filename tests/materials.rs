use raytracer::fixed::ONE;
use raytracer::light::Light;
use raytracer::material::{Albedo, Material, Pattern};
use raytracer::vector::Vec3;

const HALF: i64 = ONE / 2;

fn checkerboard() -> Material {
    let red = Vec3::new(ONE, 0, 0);
    let blue = Vec3::new(0, 0, ONE);
    Material::new(red, 1, Albedo { diffuse: ONE, specular: 0, reflective: 0, transmissive: 0 }, ONE)
        .with_pattern(Pattern::Checker { even: red, odd: blue, cell: ONE })
}

#[test]
fn checker_alternates_one_cell_apart_on_each_axis() {
    let m = checkerboard();
    let red = Vec3::new(ONE, 0, 0);
    let blue = Vec3::new(0, 0, ONE);
    let p = Vec3::new(HALF, HALF, HALF);
    assert_eq!(m.get_diffuse_color(p), red);
    assert_eq!(m.get_diffuse_color(Vec3::new(HALF + ONE, HALF, HALF)), blue);
    assert_eq!(m.get_diffuse_color(Vec3::new(HALF, HALF + ONE, HALF)), blue);
    assert_eq!(m.get_diffuse_color(Vec3::new(HALF, HALF, HALF + ONE)), blue);
}

#[test]
fn checker_repeats_two_cells_apart() {
    let m = checkerboard();
    let p = Vec3::new(HALF, 3 * HALF, HALF);
    let c = m.get_diffuse_color(p);
    assert_eq!(m.get_diffuse_color(Vec3::new(HALF + 2 * ONE, 3 * HALF, HALF)), c);
    assert_eq!(m.get_diffuse_color(Vec3::new(HALF, 3 * HALF - 2 * ONE, HALF)), c);
    assert_eq!(m.get_diffuse_color(Vec3::new(HALF, 3 * HALF, HALF + 2 * ONE)), c);
}

#[test]
fn checker_cells_below_zero_round_down() {
    let m = checkerboard();
    assert_eq!(m.get_diffuse_color(Vec3::new(-HALF, HALF, HALF)), Vec3::new(0, 0, ONE));
    assert_eq!(m.get_diffuse_color(Vec3::new(-HALF, -HALF, HALF)), Vec3::new(ONE, 0, 0));
}

#[test]
fn solid_and_black_materials() {
    let c = Vec3::new(1, 2, 3);
    let m = Material::new(c, 5, Albedo { diffuse: 1, specular: 2, reflective: 3, transmissive: 4 }, 6);
    assert_eq!(m.get_diffuse_color(Vec3::new(9, 9, 9)), c);
    assert_eq!(m.emission, Vec3::zero());
    let b = Material::black();
    assert_eq!(b.get_diffuse_color(Vec3::zero()), Vec3::zero());
    assert_eq!(b.albedo, Albedo { diffuse: 0, specular: 0, reflective: 0, transmissive: 0 });
    assert_eq!(m.with_emission(c).emission, c);
}

#[test]
fn light_direction_distance_and_falloff() {
    let l = Light::new(Vec3::new(0, 2 * ONE, 0), Vec3::new(ONE, ONE, ONE), ONE);
    assert_eq!(l.get_direction_from(Vec3::zero()), Vec3::new(0, ONE, 0));
    assert_eq!(l.get_distance_from(Vec3::new(0, ONE, 0)), ONE);
    assert_eq!(l.get_effective_intensity(Vec3::zero()), ONE);
    let f = l.with_falloff(ONE, 0);
    assert_eq!(f.get_effective_intensity(Vec3::new(0, ONE, 0)), HALF);
    assert_eq!(f.get_effective_color(Vec3::new(0, ONE, 0)), Vec3::new(HALF, HALF, HALF));
    let q = l.with_falloff(0, ONE);
    assert_eq!(q.get_effective_intensity(Vec3::zero()), ONE / 5);
}
