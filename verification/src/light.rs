//! Light sources and Blinn-Phong direct lighting.

use vstd::prelude::*;

use crate::color::{c_mul, c_scale, Color, ColorM};
use crate::math::vector::{
    v3_add, v3_dot, v3_len, v3_neg, v3_norm, v3_sub, Vec3M, Vector3,
};
use crate::math::{clamp, fx_clamp, fx_div, fx_mul, Fx, FX_MAX, FX_ONE};
use crate::shape::{shape_color_m, Shape, ShapeM};

verus! {

/// The kind of a light source.
#[derive(Clone, Copy, Debug, PartialEq, Eq, Structural)]
pub enum LightType {
    Point,
    Directional,
}

/// Mathematical model of a light.
pub struct LightM {
    pub location: Vec3M,
    pub direction: Vec3M,
    pub light_type: LightType,
    pub diffuse_color: ColorM,
    pub specular_color: ColorM,
}

/// A light source.  `location` is unused for directional lights and
/// `direction` is unused for point lights.
#[derive(Clone, Copy, Debug, PartialEq, Eq, Structural)]
pub struct Light {
    pub location: Vector3,
    pub direction: Vector3,
    pub light_type: LightType,
    pub diffuse_color: Color,
    pub specular_color: Color,
}

impl View for Light {
    type V = LightM;

    open spec fn view(&self) -> LightM {
        LightM {
            location: self.location@,
            direction: self.direction@,
            light_type: self.light_type,
            diffuse_color: self.diffuse_color@,
            specular_color: self.specular_color@,
        }
    }
}

/// Light direction and attenuation at `pos`: a directional light shines
/// along its fixed direction with no falloff; a point light shines from its
/// location with inverse-square falloff.  A point light exactly at `pos` has
/// no direction (the zero vector) and its attenuation saturates at the
/// representable maximum, standing in for the unbounded value of `1/0`.
pub open spec fn light_dir_atten_m(light: LightM, pos: Vec3M) -> (Vec3M, int) {
    if light.light_type == LightType::Directional {
        (v3_neg(v3_norm(light.direction)), FX_ONE as int)
    } else {
        let d = v3_sub(light.location, pos);
        let dist = v3_len(d);
        let ldir = v3_norm(d);
        let d2 = fx_mul(dist, dist);
        (ldir, if d2 == 0 {
            FX_MAX as int
        } else {
            fx_div(FX_ONE as int, d2)
        })
    }
}

/// Blinn-Phong contribution of one light at a hit: the diffuse term scales
/// the surface color by the clamped cosine between normal and light
/// direction, the specular term by the fourth power (shininess 4) of the
/// clamped cosine between normal and half vector; both are filtered by the
/// light's own color and the attenuation.
pub open spec fn blinn_phong_m(
    shape: ShapeM,
    light: LightM,
    pos: Vec3M,
    view_dir: Vec3M,
    normal: Vec3M,
) -> (ColorM, ColorM) {
    let (ldir, atten) = light_dir_atten_m(light, pos);
    let di = fx_clamp(v3_dot(normal, ldir), 0, FX_ONE as int);
    let diffuse = c_scale(c_mul(c_scale(shape_color_m(shape), di), light.diffuse_color), atten);
    let half = v3_norm(v3_add(ldir, v3_norm(view_dir)));
    let nh = fx_clamp(v3_dot(half, normal), 0, FX_ONE as int);
    let s2 = fx_mul(nh, nh);
    let si = fx_mul(s2, s2);
    let specular = c_scale(c_mul(c_scale(shape_color_m(shape), si), light.specular_color), atten);
    (diffuse, specular)
}

/// The diffuse and specular Blinn-Phong contributions of `light` at the hit
/// point `pos` with surface `normal`, seen from the direction `view_dir`.
pub fn blinn_phong(
    shape: &Shape,
    light: &Light,
    pos: Vector3,
    view_dir: Vector3,
    normal: Vector3,
) -> (r: (Color, Color))
    ensures
        r.0@ == blinn_phong_m(shape@, light@, pos@, view_dir@, normal@).0,
        r.1@ == blinn_phong_m(shape@, light@, pos@, view_dir@, normal@).1,
{
    let zero = Fx { v: 0 };
    let one = Fx { v: FX_ONE };
    let (light_dir, atten): (Vector3, Fx) = if light.light_type == LightType::Directional {
        (light.direction.normalize().neg(), one)
    } else {
        let d = light.location.sub(pos);
        let dist = d.length();
        let ldir = d.normalize();
        let d2 = dist.mul(dist);
        (ldir, if d2.v == 0 {
            Fx { v: FX_MAX }
        } else {
            one.div(d2)
        })
    };

    let diffuse_intensity = clamp(normal.dot(&light_dir), zero, one);
    let diffuse = shape.color().scale(diffuse_intensity).mul(light.diffuse_color).scale(atten);

    let half = light_dir.add(view_dir.normalize()).normalize();
    let n_dot_h = clamp(half.dot(&normal), zero, one);
    let s2 = n_dot_h.mul(n_dot_h);
    let specular_intensity = s2.mul(s2);
    let specular = shape.color().scale(specular_intensity).mul(light.specular_color).scale(atten);

    (diffuse, specular)
}

} // verus!
