//! The frame driver: one primary ray per pixel, traced and converted to an
//! 8-bit color.
use vstd::prelude::*;
use crate::camera::{view_dir, Camera};
use crate::fixed::ONE;
use crate::raytracer::{cast_ray, trace_color};
use crate::scene::Scene;
use crate::vector::Vec3;

verus! {

/// An 8-bit-per-channel pixel.
#[derive(Clone, Copy, Debug, PartialEq, Eq, Structural)]
pub struct Color {
    pub r: u8,
    pub g: u8,
    pub b: u8,
    pub a: u8,
}

/// A linear channel clamped to `[0, 1]` and scaled to `0..=255`, rounded down.
pub open spec fn channel(c: int) -> int {
    if c <= 0 {
        0
    } else if c >= ONE {
        255
    } else {
        (c * 255) / (ONE as int)
    }
}

pub open spec fn to_color(v: Vec3) -> Color {
    Color { r: channel(v.x as int) as u8, g: channel(v.y as int) as u8, b: channel(v.z as int) as u8, a: 255 }
}

/// Horizontal image coordinate of pixel column `x` of `w`: 0 at the left, 1 at the right.
pub open spec fn pixel_u(x: int, w: int) -> int {
    if w <= 1 {
        0
    } else {
        (x * ONE) / (w - 1)
    }
}

/// Vertical image coordinate of pixel row `y` of `h`: 1 at the top, 0 at the bottom.
pub open spec fn pixel_v(y: int, h: int) -> int {
    if h <= 1 {
        0
    } else {
        ((h - 1 - y) * ONE) / (h - 1)
    }
}

pub open spec fn pixel_color(scene: &Scene, cam: Camera, w: int, h: int, x: int, y: int) -> Color {
    to_color(trace_color(scene, cam.position, view_dir(cam, pixel_u(x, w), pixel_v(y, h)), 0))
}

fn channel_exec(c: i64) -> (r: u8)
    ensures
        r == channel(c as int),
{
    if c <= 0 {
        0
    } else if c >= ONE {
        255
    } else {
        assert(0 <= c * 255 < ONE * 255) by (nonlinear_arith)
            requires
                0 < c < ONE,
        ;
        assert((c * 255) / (ONE as int) < 256) by (nonlinear_arith)
            requires
                0 <= c * 255 < 65536 * 255,
        ;
        ((c * 255) / ONE) as u8
    }
}

/// A linear color clamped per channel and converted to an opaque pixel.
pub fn vector3_to_color(v: Vec3) -> (r: Color)
    ensures
        r == to_color(v),
{
    Color { r: channel_exec(v.x), g: channel_exec(v.y), b: channel_exec(v.z), a: 255 }
}

fn image_coord(i: u32, n: u32, flip: bool) -> (r: i64)
    requires
        i < n,
    ensures
        flip ==> r == pixel_v(i as int, n as int),
        !flip ==> r == pixel_u(i as int, n as int),
{
    if n <= 1 {
        0
    } else {
        let k: u64 = if flip {
            (n - 1 - i) as u64
        } else {
            i as u64
        };
        assert(k * 65536 <= 0xffff_ffff * 65536) by (nonlinear_arith)
            requires
                k <= 0xffff_ffff,
        ;
        let q: u64 = k * (ONE as u64) / ((n - 1) as u64);
        assert(q <= k * 65536) by {
            vstd::arithmetic::div_mod::lemma_div_is_ordered_by_denominator((k * 65536) as int, 1, (n - 1) as int);
        }
        q as i64
    }
}

pub struct Raytracer {
    pub width: u32,
    pub height: u32,
}

impl Raytracer {
    pub fn new(width: u32, height: u32) -> (r: Raytracer)
        ensures
            r.width == width,
            r.height == height,
    {
        Raytracer { width, height }
    }

    /// Rows of pixels, top row first, each traced from the camera.
    pub fn render(&self, scene: &Scene, camera: &Camera) -> (image: Vec<Vec<Color>>)
        ensures
            image@.len() == self.height,
            forall|y: int|
                0 <= y < self.height ==> (#[trigger] image@[y])@.len() == self.width && forall|x: int|
                    0 <= x < self.width ==> (#[trigger] image@[y]@[x]) == pixel_color(
                        scene,
                        *camera,
                        self.width as int,
                        self.height as int,
                        x,
                        y,
                    ),
    {
        let mut image: Vec<Vec<Color>> = Vec::new();
        let mut y: u32 = 0;
        while y < self.height
            invariant
                y <= self.height,
                image@.len() == y,
                forall|yy: int|
                    0 <= yy < y ==> (#[trigger] image@[yy])@.len() == self.width && forall|x: int|
                        0 <= x < self.width ==> (#[trigger] image@[yy]@[x]) == pixel_color(
                            scene,
                            *camera,
                            self.width as int,
                            self.height as int,
                            x,
                            yy,
                        ),
            decreases self.height - y,
        {
            let v = image_coord(y, self.height, true);
            let mut row: Vec<Color> = Vec::new();
            let mut x: u32 = 0;
            while x < self.width
                invariant
                    x <= self.width,
                    y < self.height,
                    v == pixel_v(y as int, self.height as int),
                    row@.len() == x,
                    forall|xx: int|
                        0 <= xx < x ==> (#[trigger] row@[xx]) == pixel_color(
                            scene,
                            *camera,
                            self.width as int,
                            self.height as int,
                            xx,
                            y as int,
                        ),
                decreases self.width - x,
            {
                let u = image_coord(x, self.width, false);
                let ray = camera.get_ray(u, v);
                let c = cast_ray(scene, ray.origin, ray.direction, 0);
                row.push(vector3_to_color(c));
                x = x + 1;
            }
            image.push(row);
            y = y + 1;
        }
        image
    }
}

} // verus!
