//! Textures: a row-major grid of linear colors sampled by wrapped `(u, v)`.
use vstd::prelude::*;
use crate::fixed::{fx_mul, fx_sub, diff_fx, prod_fx, ONE};
use crate::vector::Vec3;

verus! {

/// Side of the squares of the placeholder checkerboard, in pixels.
pub const CHECKER_SIZE: u32 = 16;

/// Light gray of the placeholder checkerboard (200 / 255).
pub const LIGHT_GRAY: i64 = 51400;

/// Dark gray of the placeholder checkerboard (100 / 255).
pub const DARK_GRAY: i64 = 25700;

pub struct Texture {
    pub width: u32,
    pub height: u32,
    pub pixels: Vec<Vec3>,
}

/// Color of pixel `(x, y)` of the placeholder checkerboard.
pub open spec fn dummy_pixel(x: int, y: int) -> Vec3 {
    if ((x / CHECKER_SIZE as int) % 2 + (y / CHECKER_SIZE as int) % 2) % 2 == 0 {
        Vec3 { x: LIGHT_GRAY, y: LIGHT_GRAY, z: LIGHT_GRAY }
    } else {
        Vec3 { x: DARK_GRAY, y: DARK_GRAY, z: DARK_GRAY }
    }
}

/// The fractional part of `|c|`, as a scalar in `[0, 1)`.
pub open spec fn wrap(c: int) -> int {
    if c >= 0 {
        c % (ONE as int)
    } else {
        (-c) % (ONE as int)
    }
}

/// Pixel index along an axis of `n` pixels for the wrapped coordinate `w`.
pub open spec fn texel_index(w: int, n: int) -> int {
    let i = prod_fx(w, ((n - 1) * ONE) as int) / (ONE as int);
    if i > n - 1 {
        n - 1
    } else {
        i
    }
}

/// Magenta, shown where a texture has no pixel to give.
pub open spec fn missing_texel() -> Vec3 {
    Vec3 { x: ONE, y: 0, z: ONE }
}

/// The pixel at `(u, v)`: both wrapped into `[0, 1)`, `v` counted upward.
pub open spec fn texel(tex: &Texture, u: int, v: int) -> Vec3 {
    if tex.width == 0 || tex.height == 0 {
        missing_texel()
    } else {
        let x = texel_index(wrap(u), tex.width as int);
        let y = texel_index(wrap(diff_fx(ONE as int, v)), tex.height as int);
        let i = y * tex.width + x;
        if i < tex.pixels@.len() {
            tex.pixels@[i]
        } else {
            missing_texel()
        }
    }
}

fn wrap_exec(c: i64) -> (r: i64)
    ensures
        r == wrap(c as int),
        0 <= r < ONE,
{
    let w = c as i128;
    if w >= 0 {
        (w % (ONE as i128)) as i64
    } else {
        ((-w) % (ONE as i128)) as i64
    }
}

fn texel_index_exec(w: i64, n: u32) -> (r: u32)
    requires
        0 <= w < ONE,
        n >= 1,
    ensures
        r == texel_index(w as int, n as int),
        r < n,
{
    let scaled = fx_mul(w, (n as i64 - 1) * ONE);
    proof {
        let m = (n - 1) as int;
        assert(0 <= w * (m * ONE) <= ONE * (m * ONE)) by (nonlinear_arith)
            requires
                0 <= w < ONE,
                m >= 0,
        ;
        assert(0 <= (w * (m * ONE)) / (ONE as int) <= m * ONE) by (nonlinear_arith)
            requires
                0 <= w * (m * ONE) <= ONE * (m * ONE),
        ;
    }
    let i = scaled / ONE;
    if i > n as i64 - 1 {
        n - 1
    } else {
        i as u32
    }
}

impl Texture {
    /// A texture holding `pixels`, row-major, `width` per row.
    pub fn from_pixels(width: u32, height: u32, pixels: Vec<Vec3>) -> (r: Texture)
        ensures
            r.width == width,
            r.height == height,
            r.pixels@ == pixels@,
    {
        Texture { width, height, pixels }
    }

    /// A placeholder of light and dark gray squares of `CHECKER_SIZE` pixels.
    pub fn create_dummy(width: u32, height: u32) -> (r: Texture)
        requires
            width * height <= u32::MAX,
        ensures
            r.width == width,
            r.height == height,
            r.pixels@.len() == width * height,
            forall|x: int, y: int|
                0 <= x < width && 0 <= y < height ==> #[trigger] r.pixels@[y * width + x] == dummy_pixel(x, y),
    {
        let mut pixels: Vec<Vec3> = Vec::new();
        let mut y: u32 = 0;
        while y < height
            invariant
                y <= height,
                width * height <= u32::MAX,
                pixels@.len() == y * width,
                forall|xx: int, yy: int|
                    0 <= xx < width && 0 <= yy < y ==> #[trigger] pixels@[yy * width + xx] == dummy_pixel(xx, yy),
            decreases height - y,
        {
            let mut x: u32 = 0;
            while x < width
                invariant
                    x <= width,
                    y < height,
                    width * height <= u32::MAX,
                    pixels@.len() == y * width + x,
                    forall|xx: int, yy: int|
                        0 <= xx < width && 0 <= yy < y ==> #[trigger] pixels@[yy * width + xx] == dummy_pixel(
                            xx,
                            yy,
                        ),
                    forall|xx: int| 0 <= xx < x ==> #[trigger] pixels@[y * width + xx] == dummy_pixel(xx, y as int),
                decreases width - x,
            {
                let light = ((x / CHECKER_SIZE) % 2 + (y / CHECKER_SIZE) % 2) % 2 == 0;
                let c = if light {
                    Vec3::new(LIGHT_GRAY, LIGHT_GRAY, LIGHT_GRAY)
                } else {
                    Vec3::new(DARK_GRAY, DARK_GRAY, DARK_GRAY)
                };
                let ghost before = pixels@;
                pixels.push(c);
                proof {
                    assert forall|xx: int, yy: int|
                        0 <= xx < width && 0 <= yy < y implies #[trigger] pixels@[yy * width + xx] == dummy_pixel(
                            xx,
                            yy,
                        ) by {
                        assert(yy * width + xx < (yy + 1) * width) by (nonlinear_arith)
                            requires
                                xx < width,
                        ;
                        assert((yy + 1) * width <= y * width) by (nonlinear_arith)
                            requires
                                yy + 1 <= y,
                        ;
                        assert(pixels@[yy * width + xx] == before[yy * width + xx]);
                    }
                }
                x = x + 1;
            }
            proof {
                assert(y * width + width == (y + 1) * width) by (nonlinear_arith);
                assert forall|xx: int, yy: int|
                    0 <= xx < width && 0 <= yy < y + 1 implies #[trigger] pixels@[yy * width + xx] == dummy_pixel(
                        xx,
                        yy,
                    ) by {
                    if yy == y {
                        assert(pixels@[y * width + xx] == dummy_pixel(xx, y as int));
                    }
                }
            }
            y = y + 1;
        }
        assert(pixels@.len() == width * height) by (nonlinear_arith)
            requires
                pixels@.len() == y * width,
                y == height,
        ;
        Texture { width, height, pixels }
    }

    /// The pixel at `(u, v)`.
    pub fn sample(&self, u: i64, v: i64) -> (r: Vec3)
        ensures
            r == texel(self, u as int, v as int),
    {
        if self.width == 0 || self.height == 0 {
            return Vec3::new(ONE, 0, ONE);
        }
        let x = texel_index_exec(wrap_exec(u), self.width);
        let y = texel_index_exec(wrap_exec(fx_sub(ONE, v)), self.height);
        proof {
            assert(y * self.width + x <= (self.height - 1) * self.width + self.width - 1) by (nonlinear_arith)
                requires
                    y <= self.height - 1,
                    x <= self.width - 1,
            ;
            assert((self.height - 1) * self.width + self.width - 1 < 0x1_0000_0000_0000_0000) by (nonlinear_arith)
                requires
                    self.height <= u32::MAX,
                    self.width <= u32::MAX,
            ;
        }
        let i: u64 = y as u64 * self.width as u64 + x as u64;
        if i < self.pixels.len() as u64 {
            self.pixels[i as usize]
        } else {
            Vec3::new(ONE, 0, ONE)
        }
    }
}

} // verus!
