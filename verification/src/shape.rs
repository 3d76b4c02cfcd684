//! The shape protocol and the sphere, the one shape with real intersection
//! math.

use vstd::prelude::*;

use crate::color::{Color, ColorM};
use crate::math::vector::{
    v3_add, v3_dot, v3_norm, v3_scale, v3_sub, Vec3M, Vector3,
};
use crate::math::{fx_add, fx_mul, fx_sqrt, fx_sub, nearly_zero_i, Fx, Math};
use crate::ray::{Ray, RayM};

verus! {

/// Mathematical model of an intersection: the hit point, the oriented
/// surface normal, and the hit count (2 when the ray origin is outside the
/// shape, 1 when it is inside).
pub struct HitM {
    pub point: Vec3M,
    pub normal: Vec3M,
    pub hit_count: int,
}

/// Result of a successful intersection test.
#[derive(Clone, Copy, Debug, PartialEq, Eq, Structural)]
pub struct HitRecord {
    pub point: Vector3,
    pub normal: Vector3,
    pub hit_count: u8,
}

impl View for HitRecord {
    type V = HitM;

    open spec fn view(&self) -> HitM {
        HitM { point: self.point@, normal: self.normal@, hit_count: self.hit_count as int }
    }
}

/// The model of an optional hit record.
pub open spec fn opt_hit_m(o: Option<HitRecord>) -> Option<HitM> {
    match o {
        Option::Some(h) => Option::Some(h@),
        Option::None => Option::None,
    }
}

/// Mathematical model of a sphere.
pub struct SphereM {
    pub center: Vec3M,
    pub radius: int,
    pub color: ColorM,
    pub refractive_index: int,
}

/// A sphere with a positive radius and a positive refractive index.
#[derive(Clone, Copy, Debug, PartialEq, Eq, Structural)]
pub struct Sphere {
    pub center: Vector3,
    pub radius: Fx,
    pub color: Color,
    pub refractive_index: Fx,
}

impl View for Sphere {
    type V = SphereM;

    open spec fn view(&self) -> SphereM {
        SphereM {
            center: self.center@,
            radius: self.radius@,
            color: self.color@,
            refractive_index: self.refractive_index@,
        }
    }
}

/// Mathematical model of a cube.
pub struct CubeM {
    pub location: Vec3M,
    pub color: ColorM,
    pub extent: Vec3M,
    pub refractive_index: int,
}

/// An axis-extent box.  Its intersection test is a stub that never reports a
/// hit, so it contributes nothing to a rendered image.
#[derive(Clone, Copy, Debug, PartialEq, Eq, Structural)]
pub struct Cube {
    pub location: Vector3,
    pub color: Color,
    pub extent: Vector3,
    pub refractive_index: Fx,
}

impl View for Cube {
    type V = CubeM;

    open spec fn view(&self) -> CubeM {
        CubeM {
            location: self.location@,
            color: self.color@,
            extent: self.extent@,
            refractive_index: self.refractive_index@,
        }
    }
}

/// The closed set of shape kinds the scene can hold.
#[derive(Clone, Copy, Debug, PartialEq, Eq, Structural)]
pub enum Shape {
    Sphere(Sphere),
    Cube(Cube),
}

/// Mathematical model of a shape.
pub enum ShapeM {
    Sphere(SphereM),
    Cube(CubeM),
}

impl View for Shape {
    type V = ShapeM;

    open spec fn view(&self) -> ShapeM {
        match self {
            Shape::Sphere(s) => ShapeM::Sphere(s@),
            Shape::Cube(c) => ShapeM::Cube(c@),
        }
    }
}

/// The location of a shape.
pub open spec fn shape_location_m(s: ShapeM) -> Vec3M {
    match s {
        ShapeM::Sphere(sp) => sp.center,
        ShapeM::Cube(c) => c.location,
    }
}

/// The surface color of a shape.
pub open spec fn shape_color_m(s: ShapeM) -> ColorM {
    match s {
        ShapeM::Sphere(sp) => sp.color,
        ShapeM::Cube(c) => c.color,
    }
}

/// The refractive index of a shape.
pub open spec fn shape_ri_m(s: ShapeM) -> int {
    match s {
        ShapeM::Sphere(sp) => sp.refractive_index,
        ShapeM::Cube(c) => c.refractive_index,
    }
}

/// Geometric sphere intersection.  `l` is the vector from the ray origin to
/// the center, `tc` its projection on the ray, `sd` the squared
/// perpendicular distance of the center from the ray line.  The ray misses
/// when the sphere is entirely behind it, when the line passes farther from
/// the center than the radius, or when neither root is positive.  The hit
/// uses the near root `t0` unless that is nearly zero — a ray starting
/// essentially on the surface resolves with the far root `t1` instead.  The
/// hit count is 2 when both roots are positive (origin outside) and 1
/// otherwise (origin inside).
pub open spec fn sphere_hit_m(s: SphereM, ray: RayM) -> Option<HitM> {
    let l = v3_sub(s.center, ray.origin);
    let tc = v3_dot(l, ray.direction);
    if tc < 0 {
        Option::None
    } else {
        let sd = fx_sub(v3_dot(l, l), fx_mul(tc, tc));
        let r2 = fx_mul(s.radius, s.radius);
        if sd < 0 || sd >= r2 {
            Option::None
        } else {
            let td = fx_sqrt(fx_sub(r2, sd));
            let t0 = fx_sub(tc, td);
            let t1 = fx_add(tc, td);
            if t0 > 0 || t1 > 0 {
                let t = if !nearly_zero_i(t0) {
                    t0
                } else {
                    t1
                };
                let point = v3_add(ray.origin, v3_scale(t, ray.direction));
                let normal = v3_norm(v3_sub(point, s.center));
                let hit_count: int = if t0 > 0 && t1 > 0 {
                    2
                } else {
                    1
                };
                Option::Some(HitM { point, normal, hit_count })
            } else {
                Option::None
            }
        }
    }
}

/// The intersection model of any shape: real math for spheres, never a hit
/// for the stub cube.
pub open spec fn shape_hit_m(s: ShapeM, ray: RayM) -> Option<HitM> {
    match s {
        ShapeM::Sphere(sp) => sphere_hit_m(sp, ray),
        ShapeM::Cube(_) => Option::None,
    }
}

/// The intersection capability of a shape.
pub trait Intersectable {
    /// The model of what `intersect` reports for this shape.
    spec fn hit_m(&self, ray: RayM) -> Option<HitM>;

    /// Tests the ray against the shape; reports the hit point, the surface
    /// normal and the hit count, or nothing on a miss.
    fn intersect(&self, ray: &Ray) -> (r: Option<HitRecord>)
        ensures
            opt_hit_m(r) == self.hit_m(ray@),
    ;
}

impl Intersectable for Sphere {
    open spec fn hit_m(&self, ray: RayM) -> Option<HitM> {
        sphere_hit_m(self@, ray)
    }

    fn intersect(&self, ray: &Ray) -> (r: Option<HitRecord>) {
        let l = self.center.sub(ray.origin);
        let tc = l.dot(&ray.direction);
        if tc.v < 0 {
            return None;
        }
        let sd = l.dot(&l).sub(tc.mul(tc));
        let r2 = self.radius.mul(self.radius);
        if sd.v < 0 || sd.v >= r2.v {
            return None;
        }
        let td = r2.sub(sd).sqrt();
        let t0 = tc.sub(td);
        let t1 = tc.add(td);
        if t0.v > 0 || t1.v > 0 {
            let t = if !t0.is_nearly_zero() {
                t0
            } else {
                t1
            };
            let point = ray.origin.add(ray.direction.scale(t));
            let normal = point.sub(self.center).normalize();
            let hit_count: u8 = if t0.v > 0 && t1.v > 0 {
                2
            } else {
                1
            };
            Some(HitRecord { point, normal, hit_count })
        } else {
            None
        }
    }
}

impl Intersectable for Cube {
    open spec fn hit_m(&self, ray: RayM) -> Option<HitM> {
        Option::None
    }

    /// The box never implements real intersection; it reports a miss for
    /// every ray.
    fn intersect(&self, ray: &Ray) -> (r: Option<HitRecord>) {
        None
    }
}

impl Intersectable for Shape {
    open spec fn hit_m(&self, ray: RayM) -> Option<HitM> {
        shape_hit_m(self@, ray)
    }

    fn intersect(&self, ray: &Ray) -> (r: Option<HitRecord>) {
        match self {
            Shape::Sphere(s) => s.intersect(ray),
            Shape::Cube(c) => c.intersect(ray),
        }
    }
}

impl Sphere {
    /// The center of the sphere.
    pub fn location(&self) -> (r: Vector3)
        ensures
            r@ == self@.center,
    {
        self.center
    }

    /// The surface color of the sphere.
    pub fn color(&self) -> (r: Color)
        ensures
            r@ == self@.color,
    {
        self.color
    }

    /// The refractive index of the sphere.
    pub fn refractive_index(&self) -> (r: Fx)
        ensures
            r@ == self@.refractive_index,
    {
        self.refractive_index
    }
}

impl Cube {
    /// The location of the box.
    pub fn location(&self) -> (r: Vector3)
        ensures
            r@ == self@.location,
    {
        self.location
    }

    /// The surface color of the box.
    pub fn color(&self) -> (r: Color)
        ensures
            r@ == self@.color,
    {
        self.color
    }

    /// The refractive index of the box.
    pub fn refractive_index(&self) -> (r: Fx)
        ensures
            r@ == self@.refractive_index,
    {
        self.refractive_index
    }
}

impl Shape {
    /// The location of the shape.
    pub fn location(&self) -> (r: Vector3)
        ensures
            r@ == shape_location_m(self@),
    {
        match self {
            Shape::Sphere(s) => s.location(),
            Shape::Cube(c) => c.location(),
        }
    }

    /// The surface color of the shape.
    pub fn color(&self) -> (r: Color)
        ensures
            r@ == shape_color_m(self@),
    {
        match self {
            Shape::Sphere(s) => s.color(),
            Shape::Cube(c) => c.color(),
        }
    }

    /// The refractive index of the shape.
    pub fn refractive_index(&self) -> (r: Fx)
        ensures
            r@ == shape_ri_m(self@),
    {
        match self {
            Shape::Sphere(s) => s.refractive_index(),
            Shape::Cube(c) => c.refractive_index(),
        }
    }
}

} // verus!
