use raytracer::fixed::ONE;
use raytracer::texture::{Texture, DARK_GRAY, LIGHT_GRAY};
use raytracer::vector::Vec3;

const HALF: i64 = ONE / 2;

fn gray(g: i64) -> Vec3 {
    Vec3::new(g, g, g)
}

fn numbered(width: u32, height: u32) -> Texture {
    let pixels = (0..(width * height) as i64).map(|i| Vec3::new(i, 0, 0)).collect();
    Texture::from_pixels(width, height, pixels)
}

#[test]
fn dummy_texture_is_gray_checkerboard() {
    let t = Texture::create_dummy(40, 20);
    assert_eq!(t.pixels.len(), 800);
    assert_eq!(t.pixels[0], gray(LIGHT_GRAY));
    assert_eq!(t.pixels[15], gray(LIGHT_GRAY));
    assert_eq!(t.pixels[16], gray(DARK_GRAY));
    assert_eq!(t.pixels[16 * 40], gray(DARK_GRAY));
    assert_eq!(t.pixels[16 * 40 + 16], gray(LIGHT_GRAY));
    assert_eq!(t.pixels[19 * 40 + 39], gray(DARK_GRAY));
    assert_eq!(t.pixels[19 * 40 + 47 - 16], gray(LIGHT_GRAY));
}

#[test]
fn sample_wraps_coordinates() {
    let t = numbered(4, 3);
    assert_eq!(t.sample(0, ONE), Vec3::new(0, 0, 0));
    assert_eq!(t.sample(HALF, 0), Vec3::new(1, 0, 0));
    assert_eq!(t.sample(-HALF - ONE, HALF), Vec3::new(5, 0, 0));
    assert_eq!(t.sample(ONE - 1, ONE), Vec3::new(2, 0, 0));
    assert_eq!(t.sample(HALF, HALF), Vec3::new(5, 0, 0));
}

#[test]
fn sample_without_pixels_is_magenta() {
    let magenta = Vec3::new(ONE, 0, ONE);
    assert_eq!(numbered(0, 3).sample(HALF, HALF), magenta);
    assert_eq!(Texture::from_pixels(4, 3, vec![Vec3::zero(); 5]).sample(HALF, HALF), magenta);
}
