use raytracer::fixed::{fx_add, fx_div, fx_floor_div, fx_mul, fx_neg, fx_pow, fx_sqrt, fx_sub, LIMIT, ONE};
use raytracer::ray::Ray;
use raytracer::vector::{reflect, Vec3};

const HALF: i64 = ONE / 2;

#[test]
fn product_rounds_down() {
    assert_eq!(fx_mul(3 * HALF, 2 * ONE), 3 * ONE);
    assert_eq!(fx_mul(1, 1), 0);
    assert_eq!(fx_mul(-1, 1), -1);
}

#[test]
fn quotient_rounds_down() {
    assert_eq!(fx_div(ONE, 3 * ONE), 21845);
    assert_eq!(fx_div(-ONE, 3 * ONE), -21846);
    assert_eq!(fx_div(ONE, -3 * ONE), -21846);
    assert_eq!(fx_div(7 * ONE, 2 * ONE), 7 * HALF);
}

#[test]
fn square_root_rounds_down() {
    assert_eq!(fx_sqrt(4 * ONE), 2 * ONE);
    assert_eq!(fx_sqrt(2 * ONE), 92681);
    assert_eq!(fx_sqrt(-5), 0);
    assert_eq!(fx_sqrt(0), 0);
}

#[test]
fn operations_saturate() {
    assert_eq!(fx_add(LIMIT, 1), LIMIT);
    assert_eq!(fx_sub(-LIMIT, 1), -LIMIT);
    assert_eq!(fx_mul(i64::MAX, i64::MAX), LIMIT);
    assert_eq!(fx_mul(i64::MIN, i64::MAX), -LIMIT);
    assert_eq!(fx_neg(i64::MIN), LIMIT);
    assert_eq!(fx_div(LIMIT, 1), LIMIT);
}

#[test]
fn power_by_repeated_products() {
    assert_eq!(fx_pow(HALF, 3), ONE / 8);
    assert_eq!(fx_pow(12345, 0), ONE);
    assert_eq!(fx_pow(2 * ONE, 10), 1024 * ONE);
}

#[test]
fn floor_division_of_integers() {
    assert_eq!(fx_floor_div(7, 4), 1);
    assert_eq!(fx_floor_div(-1, 4), -1);
    assert_eq!(fx_floor_div(-8, 4), -2);
}

#[test]
fn vector_length_and_normalize() {
    let v = Vec3::new(3 * ONE, 4 * ONE, 0);
    assert_eq!(v.length(), 5 * ONE);
    assert_eq!(v.normalize(), Vec3::new(39321, 52428, 0));
    assert_eq!(Vec3::zero().normalize(), Vec3::zero());
    assert_eq!(v.dot(Vec3::new(ONE, ONE, ONE)), 7 * ONE);
}

#[test]
fn vector_cross_and_reflect() {
    let x = Vec3::new(ONE, 0, 0);
    let y = Vec3::new(0, ONE, 0);
    assert_eq!(x.cross(y), Vec3::new(0, 0, ONE));
    assert_eq!(reflect(Vec3::new(ONE, -ONE, 0), y), Vec3::new(ONE, ONE, 0));
    assert_eq!(x.sub(y).neg(), Vec3::new(-ONE, ONE, 0));
    assert_eq!(x.mul(Vec3::new(HALF, 2, 3)), Vec3::new(HALF, 0, 0));
}

#[test]
fn ray_new_normalizes_direction() {
    let r = Ray::new(Vec3::new(ONE, 0, 0), Vec3::new(0, 0, -5 * ONE));
    assert_eq!(r.origin, Vec3::new(ONE, 0, 0));
    assert_eq!(r.direction, Vec3::new(0, 0, -ONE));
    assert_eq!(r.at(2 * ONE), Vec3::new(ONE, 0, -2 * ONE));
}
