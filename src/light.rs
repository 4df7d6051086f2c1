//! Point lights with an optional distance falloff.
use vstd::prelude::*;
use crate::fixed::{fx_add, fx_div, fx_mul, prod_fx, quot_fx, sum_fx, ONE};
use crate::vector::{vlength, vnormalize, vscale, vsub, Vec3};

verus! {

/// A point light. Its strength at distance `d` is
/// `intensity / (1 + linear * d + quadratic * d^2)`.
#[derive(Clone, Copy, Debug, PartialEq, Eq, Structural)]
pub struct Light {
    pub position: Vec3,
    pub color: Vec3,
    pub intensity: i64,
    pub linear: i64,
    pub quadratic: i64,
}

pub open spec fn light_dir(light: Light, point: Vec3) -> Vec3 {
    vnormalize(vsub(light.position, point))
}

pub open spec fn light_distance(light: Light, point: Vec3) -> int {
    vlength(vsub(light.position, point))
}

/// `1 / (1 + linear * d + quadratic * d^2)`; 0 where the denominator is 0.
pub open spec fn attenuation(light: Light, d: int) -> int {
    quot_fx(
        ONE as int,
        sum_fx(sum_fx(ONE as int, prod_fx(light.linear as int, d)), prod_fx(light.quadratic as int, prod_fx(d, d))),
    )
}

pub open spec fn effective_intensity(light: Light, point: Vec3) -> int {
    prod_fx(light.intensity as int, attenuation(light, light_distance(light, point)))
}

impl Light {
    /// A light of constant strength (no falloff).
    pub fn new(position: Vec3, color: Vec3, intensity: i64) -> (r: Light)
        ensures
            r == (Light { position, color, intensity, linear: 0, quadratic: 0 }),
    {
        Light { position, color, intensity, linear: 0, quadratic: 0 }
    }

    /// The same light fading with distance by the given coefficients.
    pub fn with_falloff(self, linear: i64, quadratic: i64) -> (r: Light)
        ensures
            r == (Light { linear, quadratic, ..self }),
    {
        Light { linear, quadratic, ..self }
    }

    /// Unit direction from `point` toward the light.
    pub fn get_direction_from(&self, point: Vec3) -> (r: Vec3)
        ensures
            r == light_dir(*self, point),
    {
        self.position.sub(point).normalize()
    }

    /// Distance from `point` to the light.
    pub fn get_distance_from(&self, point: Vec3) -> (r: i64)
        ensures
            r == light_distance(*self, point),
    {
        self.position.sub(point).length()
    }

    /// Strength of the light as seen from `point`, falloff included.
    pub fn get_effective_intensity(&self, point: Vec3) -> (r: i64)
        ensures
            r == effective_intensity(*self, point),
    {
        let d = self.get_distance_from(point);
        let denom = fx_add(fx_add(ONE, fx_mul(self.linear, d)), fx_mul(self.quadratic, fx_mul(d, d)));
        let att = if denom == 0 {
            0
        } else {
            fx_div(ONE, denom)
        };
        fx_mul(self.intensity, att)
    }

    /// The light's color scaled by its strength as seen from `point`.
    pub fn get_effective_color(&self, point: Vec3) -> (r: Vec3)
        ensures
            r == vscale(self.color, effective_intensity(*self, point)),
    {
        self.color.scale(self.get_effective_intensity(point))
    }
}

} // verus!
