//! Surface materials: a base color (solid or a 3-D checkerboard), a Phong
//! exponent, a four-way energy split and a refractive index.
use vstd::prelude::*;
use crate::fixed::{fx_floor_div, ONE};
use crate::vector::{Vec3, vzero};

verus! {

/// How the base color varies over space.
#[derive(Clone, Copy, Debug, PartialEq, Eq, Structural)]
pub enum Pattern {
    Solid(Vec3),
    /// Cubes of side `cell` alternate between `even` and `odd` by the parity
    /// of the sum of their integer cell coordinates. A non-positive `cell`
    /// shows `even` everywhere.
    Checker { even: Vec3, odd: Vec3, cell: i64 },
}

/// How a surface splits incoming energy: the local Phong term is weighted by
/// `diffuse` and `specular`, and `reflective` and `transmissive` are handed to
/// the recursive rays.
#[derive(Clone, Copy, Debug, PartialEq, Eq, Structural)]
pub struct Albedo {
    pub diffuse: i64,
    pub specular: i64,
    pub reflective: i64,
    pub transmissive: i64,
}

#[derive(Clone, Copy, Debug, PartialEq, Eq, Structural)]
pub struct Material {
    pub color: Pattern,
    /// Phong exponent (sharpness of the specular lobe).
    pub specular: u32,
    pub albedo: Albedo,
    pub refractive_index: i64,
    /// Light given off regardless of lighting and shadowing.
    pub emission: Vec3,
}

/// Parity (0 or 1) of the checkerboard cell that holds `p`.
pub open spec fn checker_parity(p: Vec3, cell: int) -> int {
    ((p.x as int) / cell + (p.y as int) / cell + (p.z as int) / cell) % 2
}

pub open spec fn pattern_color(pat: Pattern, p: Vec3) -> Vec3 {
    match pat {
        Pattern::Solid(c) => c,
        Pattern::Checker { even, odd, cell } => {
            if cell <= 0 || checker_parity(p, cell as int) == 0 {
                even
            } else {
                odd
            }
        },
    }
}

/// Two points exactly one checkerboard cell apart along one axis.
pub open spec fn one_cell_apart(p: Vec3, q: Vec3, cell: int) -> bool {
    ||| (q.x == p.x + cell && q.y == p.y && q.z == p.z)
    ||| (q.x == p.x && q.y == p.y + cell && q.z == p.z)
    ||| (q.x == p.x && q.y == p.y && q.z == p.z + cell)
}

/// Stepping one cell along any axis switches between the two colors of a
/// checkerboard.
pub proof fn lemma_checker_alternates(even: Vec3, odd: Vec3, cell: i64, p: Vec3, q: Vec3)
    requires
        cell > 0,
        one_cell_apart(p, q, cell as int),
    ensures
        ({
            let pat = Pattern::Checker { even, odd, cell };
            ||| pattern_color(pat, p) == even && pattern_color(pat, q) == odd
            ||| pattern_color(pat, p) == odd && pattern_color(pat, q) == even
        }),
{
    let c = cell as int;
    vstd::arithmetic::div_mod::lemma_div_plus_one(p.x as int, c);
    vstd::arithmetic::div_mod::lemma_div_plus_one(p.y as int, c);
    vstd::arithmetic::div_mod::lemma_div_plus_one(p.z as int, c);
    assert(checker_parity(q, c) != checker_parity(p, c));
}

/// Two cells apart along one axis, a checkerboard shows the same color.
pub proof fn lemma_checker_period_two(even: Vec3, odd: Vec3, cell: i64, p: Vec3, q: Vec3, r: Vec3)
    requires
        cell > 0,
        one_cell_apart(p, q, cell as int),
        one_cell_apart(q, r, cell as int),
        (r.x == p.x && r.y == p.y) || (r.x == p.x && r.z == p.z) || (r.y == p.y && r.z == p.z),
    ensures
        pattern_color(Pattern::Checker { even, odd, cell }, r) == pattern_color(
            Pattern::Checker { even, odd, cell },
            p,
        ),
{
    let c = cell as int;
    vstd::arithmetic::div_mod::lemma_div_plus_one(p.x as int, c);
    vstd::arithmetic::div_mod::lemma_div_plus_one(p.y as int, c);
    vstd::arithmetic::div_mod::lemma_div_plus_one(p.z as int, c);
    vstd::arithmetic::div_mod::lemma_div_plus_one(q.x as int, c);
    vstd::arithmetic::div_mod::lemma_div_plus_one(q.y as int, c);
    vstd::arithmetic::div_mod::lemma_div_plus_one(q.z as int, c);
    assert(checker_parity(r, c) == checker_parity(p, c));
}

impl Material {
    /// A material of solid color `diffuse` that gives off no light.
    pub fn new(diffuse: Vec3, specular: u32, albedo: Albedo, refractive_index: i64) -> (r: Material)
        ensures
            r == (Material {
                color: Pattern::Solid(diffuse),
                specular,
                albedo,
                refractive_index,
                emission: vzero(),
            }),
    {
        Material { color: Pattern::Solid(diffuse), specular, albedo, refractive_index, emission: Vec3::zero() }
    }

    /// A black, fully absorbing material.
    pub fn black() -> (r: Material)
        ensures
            r.color == Pattern::Solid(vzero()),
            r.specular == 0,
            r.albedo == (Albedo { diffuse: 0, specular: 0, reflective: 0, transmissive: 0 }),
            r.refractive_index == 0,
            r.emission == vzero(),
    {
        Material {
            color: Pattern::Solid(Vec3::zero()),
            specular: 0,
            albedo: Albedo { diffuse: 0, specular: 0, reflective: 0, transmissive: 0 },
            refractive_index: 0,
            emission: Vec3::zero(),
        }
    }

    /// The same material giving off `emission`.
    pub fn with_emission(self, emission: Vec3) -> (r: Material)
        ensures
            r == (Material { emission, ..self }),
    {
        Material { emission, ..self }
    }

    /// The same material with its base color replaced by `pattern`.
    pub fn with_pattern(self, pattern: Pattern) -> (r: Material)
        ensures
            r == (Material { color: pattern, ..self }),
    {
        Material { color: pattern, ..self }
    }

    /// Base color at world-space `point`.
    pub fn get_diffuse_color(&self, point: Vec3) -> (r: Vec3)
        ensures
            r == pattern_color(self.color, point),
    {
        match self.color {
            Pattern::Solid(c) => c,
            Pattern::Checker { even, odd, cell } => {
                if cell <= 0 {
                    even
                } else {
                    let ix = fx_floor_div(point.x, cell) as i128;
                    let iy = fx_floor_div(point.y, cell) as i128;
                    let iz = fx_floor_div(point.z, cell) as i128;
                    let s: i128 = ix + iy + iz;
                    let odd_cell = if s >= 0 {
                        s % 2 == 1
                    } else {
                        (-s) % 2 == 1
                    };
                    if odd_cell {
                        odd
                    } else {
                        even
                    }
                }
            },
        }
    }
}

} // verus!
