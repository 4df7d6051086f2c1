//! A pinhole camera: an eye, an orthonormal basis and the extent of the
//! image plane at unit distance.
use vstd::prelude::*;
use crate::fixed::{fx_mul, fx_sub, diff_fx, prod_fx, ONE};
use crate::ray::Ray;
use crate::vector::{vadd, vcross, vnormalize, vscale, vsub, Vec3};

verus! {

#[derive(Clone, Copy, Debug)]
pub struct Camera {
    pub position: Vec3,
    pub target: Vec3,
    pub up: Vec3,
    /// Half the height of the image plane at unit distance: the tangent of
    /// half the vertical field of view.
    pub half_height: i64,
    /// Width over height of the image.
    pub aspect_ratio: i64,
    pub forward: Vec3,
    pub right: Vec3,
    pub camera_up: Vec3,
}

pub open spec fn basis_forward(position: Vec3, target: Vec3) -> Vec3 {
    vnormalize(vsub(target, position))
}

pub open spec fn basis_right(position: Vec3, target: Vec3, up: Vec3) -> Vec3 {
    vnormalize(vcross(basis_forward(position, target), up))
}

pub open spec fn basis_up(position: Vec3, target: Vec3, up: Vec3) -> Vec3 {
    vnormalize(vcross(basis_right(position, target, up), basis_forward(position, target)))
}

/// Direction through the image point `(u, v)` (each in `[0, 1]`, `v` upward).
pub open spec fn view_dir(cam: Camera, u: int, v: int) -> Vec3 {
    let ndc_x = diff_fx(prod_fx(u, 2 * ONE), ONE as int);
    let ndc_y = diff_fx(prod_fx(v, 2 * ONE), ONE as int);
    let half_width = prod_fx(cam.half_height as int, cam.aspect_ratio as int);
    let target_point = vadd(
        vadd(vadd(cam.position, cam.forward), vscale(cam.right, prod_fx(ndc_x, half_width))),
        vscale(cam.camera_up, prod_fx(ndc_y, cam.half_height as int)),
    );
    vnormalize(vsub(target_point, cam.position))
}

impl Camera {
    pub fn new(position: Vec3, target: Vec3, up: Vec3, half_height: i64, aspect_ratio: i64) -> (r: Camera)
        ensures
            r.position == position,
            r.target == target,
            r.up == up,
            r.half_height == half_height,
            r.aspect_ratio == aspect_ratio,
            r.forward == basis_forward(position, target),
            r.right == basis_right(position, target, up),
            r.camera_up == basis_up(position, target, up),
    {
        let mut camera = Camera {
            position,
            target,
            up,
            half_height,
            aspect_ratio,
            forward: Vec3::zero(),
            right: Vec3::zero(),
            camera_up: Vec3::zero(),
        };
        camera.update_camera_vectors();
        camera
    }

    fn update_camera_vectors(&mut self)
        ensures
            final(self).position == old(self).position,
            final(self).target == old(self).target,
            final(self).up == old(self).up,
            final(self).half_height == old(self).half_height,
            final(self).aspect_ratio == old(self).aspect_ratio,
            final(self).forward == basis_forward(old(self).position, old(self).target),
            final(self).right == basis_right(old(self).position, old(self).target, old(self).up),
            final(self).camera_up == basis_up(old(self).position, old(self).target, old(self).up),
    {
        self.forward = self.target.sub(self.position).normalize();
        self.right = self.forward.cross(self.up).normalize();
        self.camera_up = self.right.cross(self.forward).normalize();
    }

    /// The primary ray through the image point `(u, v)`.
    pub fn get_ray(&self, u: i64, v: i64) -> (r: Ray)
        ensures
            r.origin == self.position,
            r.direction == view_dir(*self, u as int, v as int),
    {
        let ndc_x = fx_sub(fx_mul(u, 2 * ONE), ONE);
        let ndc_y = fx_sub(fx_mul(v, 2 * ONE), ONE);
        let half_width = fx_mul(self.half_height, self.aspect_ratio);
        let target_point = self.position.add(self.forward).add(self.right.scale(fx_mul(ndc_x, half_width))).add(
            self.camera_up.scale(fx_mul(ndc_y, self.half_height)),
        );
        Ray { origin: self.position, direction: target_point.sub(self.position).normalize() }
    }
}

} // verus!
