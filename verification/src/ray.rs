//! Rays and the pinhole-camera primary ray.

use vstd::prelude::*;

use crate::math::vector::{v3_norm, v3_zero, Vec3M, Vector3};
use crate::math::{
    fx_add, fx_div, fx_mul, fx_of_int, fx_sub, Fx, FX_HALF, FX_ONE, FX_TWO,
};
use crate::scene::Scene;

verus! {

/// Mathematical model of a ray.
pub struct RayM {
    pub origin: Vec3M,
    pub direction: Vec3M,
}

/// An origin and a direction.  The direction is expected to be unit length
/// at the point of use by the intersection math; callers normalize after
/// composing directions.
#[derive(Clone, Copy, Debug, PartialEq, Eq, Structural)]
pub struct Ray {
    pub origin: Vector3,
    pub direction: Vector3,
}

impl View for Ray {
    type V = RayM;

    open spec fn view(&self) -> RayM {
        RayM { origin: self.origin@, direction: self.direction@ }
    }
}

/// Direction of the primary ray through pixel `(x, y)` of a `w` by `h`
/// sensor whose half-field-of-view tangent is `fov_adj`: the normalized
/// device coordinates of the pixel center, placed on the `z = -1` plane and
/// normalized.  The camera sits at the origin looking down `-z`.
pub open spec fn primary_dir_m(x: int, y: int, w: int, h: int, fov_adj: int) -> Vec3M {
    let aspect = fx_div(fx_of_int(w), fx_of_int(h));
    let sx = fx_mul(
        fx_mul(
            fx_sub(
                fx_mul(fx_div(fx_add(fx_of_int(x), FX_HALF as int), fx_of_int(w)), FX_TWO as int),
                FX_ONE as int,
            ),
            aspect,
        ),
        fov_adj,
    );
    let sy = fx_mul(
        fx_sub(
            FX_ONE as int,
            fx_mul(fx_div(fx_add(fx_of_int(y), FX_HALF as int), fx_of_int(h)), FX_TWO as int),
        ),
        fov_adj,
    );
    v3_norm(Vec3M { x: sx, y: sy, z: -(FX_ONE as int) })
}

impl Ray {
    /// The primary ray for pixel `(x, y)`: origin at the camera, direction
    /// through the pixel center.  The scene must be landscape.
    pub fn create_primary_ray(x: u32, y: u32, scene: &Scene) -> (r: Ray)
        requires
            scene.width > scene.height,
            scene.height >= 1,
        ensures
            r@.origin == v3_zero(),
            r@.direction == primary_dir_m(
                x as int,
                y as int,
                scene.width as int,
                scene.height as int,
                scene.fov_adjustment@,
            ),
    {
        let one = Fx { v: FX_ONE };
        let two = Fx { v: FX_TWO };
        let half = Fx { v: FX_HALF };
        let w = Fx::from_int(scene.width as i64);
        let h = Fx::from_int(scene.height as i64);
        let aspect_ratio = w.div(h);
        let sensor_x = Fx::from_int(x as i64)
            .add(half)
            .div(w)
            .mul(two)
            .sub(one)
            .mul(aspect_ratio)
            .mul(scene.fov_adjustment);
        let sensor_y = one
            .sub(Fx::from_int(y as i64).add(half).div(h).mul(two))
            .mul(scene.fov_adjustment);
        Ray {
            origin: Vector3::zero(),
            direction: Vector3 { x: sensor_x, y: sensor_y, z: Fx { v: -FX_ONE } }.normalize(),
        }
    }
}

} // verus!
