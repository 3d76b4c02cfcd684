//! The scene, nearest-hit traversal, the Fresnel/refraction solver and the
//! recursive integrator.

use vstd::prelude::*;

use crate::color::{c_add, c_scale, Color, ColorM};
use crate::light::{blinn_phong, blinn_phong_m, Light, LightM, LightType};
use crate::math::vector::{
    v3_add, v3_dot, v3_neg, v3_norm, v3_scale, v3_size_sq, v3_sub, v3_zero, Vec3M, Vector3,
};
use crate::math::{
    clamp, fx_abs, fx_add, fx_clamp, fx_div, fx_max0, fx_mul, fx_neg, fx_sqrt, fx_sub, Fx, FX_MAX,
    FX_ONE, FX_TWO,
};
use crate::ray::{Ray, RayM};
use crate::shape::{
    shape_color_m, shape_hit_m, shape_ri_m, HitM, Intersectable, Shape, ShapeM,
};

verus! {

/// Mathematical model of a scene.
pub struct SceneM {
    pub width: int,
    pub height: int,
    pub fov_adjustment: int,
    pub lights: Seq<LightM>,
    pub shapes: Seq<ShapeM>,
}

/// A scene: the sensor size, the tangent of half the field of view
/// (computed by whatever constructs the scene), the lights and the shapes.
/// It is immutable for the duration of a render.
#[derive(Debug)]
pub struct Scene {
    pub width: u32,
    pub height: u32,
    pub fov_adjustment: Fx,
    pub lights: Vec<Light>,
    pub shapes: Vec<Shape>,
}

impl View for Scene {
    type V = SceneM;

    open spec fn view(&self) -> SceneM {
        SceneM {
            width: self.width as int,
            height: self.height as int,
            fov_adjustment: self.fov_adjustment@,
            lights: self.lights@.map_values(|l: Light| l@),
            shapes: self.shapes@.map_values(|s: Shape| s@),
        }
    }
}

/// Every shape of the scene has a positive refractive index.
pub open spec fn scene_wf(s: SceneM) -> bool {
    forall|i: int| 0 <= i < s.shapes.len() ==> shape_ri_m(#[trigger] s.shapes[i]) > 0
}

/// Mathematical model of a traversal result: which shape was hit (an index
/// into the scene's shape list), where, the normal there, the hit count,
/// and the winning squared distance.
pub struct CastM {
    pub shape: Option<int>,
    pub point: Vec3M,
    pub normal: Vec3M,
    pub hit_count: int,
    pub min_d: int,
}

/// The traversal result when nothing was hit.
pub open spec fn cast_miss_m() -> CastM {
    CastM {
        shape: Option::None,
        point: v3_zero(),
        normal: v3_zero(),
        hit_count: 0,
        min_d: FX_MAX as int,
    }
}

/// Nearest-hit traversal: of the shapes that report a hit, the one whose
/// hit point has the smallest squared distance from the coordinate origin
/// (the frame all primary rays share) wins; among equals, the earliest in
/// the list.
pub open spec fn cast_m(shapes: Seq<ShapeM>, ray: RayM) -> CastM
    decreases shapes.len(),
{
    if shapes.len() == 0 {
        cast_miss_m()
    } else {
        let prev = cast_m(shapes.drop_last(), ray);
        match shape_hit_m(shapes.last(), ray) {
            Option::Some(h) => {
                let d = v3_size_sq(h.point);
                if d < prev.min_d {
                    CastM {
                        shape: Option::Some(shapes.len() - 1),
                        point: h.point,
                        normal: h.normal,
                        hit_count: h.hit_count,
                        min_d: d,
                    }
                } else {
                    prev
                }
            },
            Option::None => prev,
        }
    }
}

/// A nearest hit: the index of the shape in the scene's list, the hit
/// point, the surface normal there, and the hit count.
#[derive(Clone, Copy, Debug, PartialEq, Eq, Structural)]
pub struct SceneHit {
    pub shape_index: usize,
    pub point: Vector3,
    pub normal: Vector3,
    pub hit_count: u8,
}

/// Whether `r` reports exactly the nearest hit that the traversal model `c`
/// describes.
pub open spec fn matches_cast_m(r: Option<SceneHit>, c: CastM, n_shapes: int) -> bool {
    match r {
        Option::Some(h) => {
            &&& h.shape_index < n_shapes
            &&& c.shape == Option::Some(h.shape_index as int)
            &&& c.point == h.point@
            &&& c.normal == h.normal@
            &&& c.hit_count == h.hit_count as int
        },
        Option::None => c.shape is None,
    }
}

/// Walks every shape and keeps the nearest hit, measured by the squared
/// distance of the hit point from the coordinate origin.
pub fn ray_casting(scene: &Scene, ray: Ray) -> (r: Option<SceneHit>)
    ensures
        matches_cast_m(r, cast_m(scene@.shapes, ray@), scene@.shapes.len() as int),
{
    let mut best: Option<SceneHit> = None;
    let mut min_distance = Fx { v: FX_MAX };
    let mut i: usize = 0;
    while i < scene.shapes.len()
        invariant
            i <= scene.shapes.len(),
            min_distance@ == cast_m(scene@.shapes.subrange(0, i as int), ray@).min_d,
            matches_cast_m(best, cast_m(scene@.shapes.subrange(0, i as int), ray@), i as int),
        decreases scene.shapes.len() - i,
    {
        let shape = &scene.shapes[i];
        match shape.intersect(&ray) {
            Some(hit) => {
                let distance = hit.point.size_squared();
                if distance.v < min_distance.v {
                    min_distance = distance;
                    best = Some(SceneHit {
                        shape_index: i,
                        point: hit.point,
                        normal: hit.normal,
                        hit_count: hit.hit_count,
                    });
                }
            },
            None => {},
        }
        proof {
            assert(scene@.shapes.subrange(0, i + 1).drop_last() =~= scene@.shapes.subrange(
                0,
                i as int,
            ));
            assert(scene@.shapes.subrange(0, i + 1).last() == scene@.shapes[i as int]);
        }
        i = i + 1;
    }
    proof {
        assert(scene@.shapes.subrange(0, scene.shapes@.len() as int) =~= scene@.shapes);
    }
    best
}

/// Cosine of the angle of incidence: the incident direction against the
/// oriented surface normal.
pub open spec fn cos_i_m(incident: Vec3M, normal: Vec3M) -> int {
    fx_neg(v3_dot(incident, normal))
}

/// Squared sine of the transmission angle by Snell's law, with the squared
/// cosine term floored at zero before scaling.
pub open spec fn sin_t2_m(incident: Vec3M, normal: Vec3M, n1: int, n2: int) -> int {
    let n = fx_div(n1, n2);
    let ci = cos_i_m(incident, normal);
    fx_mul(fx_mul(n, n), fx_max0(fx_sub(FX_ONE as int, fx_mul(ci, ci))))
}

/// Reflection of `incident` about `normal`, unnormalized.
pub open spec fn reflect_m(incident: Vec3M, normal: Vec3M) -> Vec3M {
    v3_add(incident, v3_scale(fx_mul(FX_TWO as int, cos_i_m(incident, normal)), normal))
}

/// The incident direction mirrored about the surface normal (unnormalized).
pub fn reflection(incident: Vector3, normal: Vector3) -> (r: Vector3)
    ensures
        r@ == reflect_m(incident@, normal@),
{
    let cos_i = incident.dot(&normal).neg();
    incident.add(normal.scale(Fx { v: FX_TWO }.mul(cos_i)))
}

/// Refraction direction by Snell's law, or nothing under total internal
/// reflection.  The squared cosine term is not floored here, mirroring the
/// standalone solver.
pub open spec fn refract_m(incident: Vec3M, normal: Vec3M, n1: int, n2: int) -> Option<Vec3M> {
    let n = fx_div(n1, n2);
    let ci = cos_i_m(incident, normal);
    let st2 = fx_mul(fx_mul(n, n), fx_sub(FX_ONE as int, fx_mul(ci, ci)));
    if st2 > FX_ONE {
        Option::None
    } else {
        let ct = fx_sqrt(fx_sub(FX_ONE as int, st2));
        Option::Some(
            v3_add(v3_scale(n, incident), v3_scale(fx_sub(fx_mul(n, ci), ct), normal)),
        )
    }
}

/// The refracted direction of `incident` through a surface with `normal`,
/// leaving a medium of index `n1` for one of index `n2`; nothing under
/// total internal reflection.
pub fn refraction(incident: Vector3, normal: Vector3, n1: Fx, n2: Fx) -> (r: Option<Vector3>)
    requires
        n1@ > 0,
        n2@ > 0,
    ensures
        ({
            let m = refract_m(incident@, normal@, n1@, n2@);
            match r {
                Option::Some(v) => m == Option::Some(v@),
                Option::None => m is None,
            }
        }),
{
    let one = Fx { v: FX_ONE };
    let n = n1.div(n2);
    let cos_i = incident.dot(&normal).neg();
    let sin_t2 = n.mul(n).mul(one.sub(cos_i.mul(cos_i)));
    if sin_t2.v > FX_ONE {
        return None;
    }
    let cos_t = one.sub(sin_t2).sqrt();
    Some(incident.scale(n).add(normal.scale(n.mul(cos_i).sub(cos_t))))
}

/// Fresnel reflectance fraction (the standalone solver): the mean of the
/// squared polarization reflectances, 1 under total internal reflection.
/// At a degenerate grazing incidence where both polarization denominators
/// vanish the fraction is taken as 1, full reflection.
pub open spec fn fresnel_m(incident: Vec3M, normal: Vec3M, n1: int, n2: int) -> int {
    let ci = cos_i_m(incident, normal);
    let st2 = sin_t2_m(incident, normal, n1, n2);
    if st2 > FX_ONE {
        FX_ONE as int
    } else {
        let ct = fx_sqrt(fx_sub(FX_ONE as int, st2));
        let cia = fx_abs(ci);
        let den_s = fx_add(fx_mul(n2, cia), fx_mul(n1, ct));
        let den_p = fx_add(fx_mul(n1, cia), fx_mul(n2, ct));
        if den_s == 0 || den_p == 0 {
            FX_ONE as int
        } else {
            let rs = fx_div(fx_sub(fx_mul(n2, cia), fx_mul(n1, ct)), den_s);
            let rp = fx_div(fx_sub(fx_mul(n1, cia), fx_mul(n2, ct)), den_p);
            fx_div(fx_add(fx_mul(rs, rs), fx_mul(rp, rp)), FX_TWO as int)
        }
    }
}

/// Fresnel reflectance of `incident` at a boundary from medium `n1` into
/// medium `n2`.
pub fn fresnel(incident: Vector3, normal: Vector3, n1: Fx, n2: Fx) -> (r: Fx)
    requires
        n1@ > 0,
        n2@ > 0,
    ensures
        r@ == fresnel_m(incident@, normal@, n1@, n2@),
{
    let one = Fx { v: FX_ONE };
    let n = n1.div(n2);
    let cos_i = incident.dot(&normal).neg();
    let sin_t2 = n.mul(n).mul(one.sub(cos_i.mul(cos_i)).max_zero());
    if sin_t2.v > FX_ONE {
        return one;
    }
    let cos_t = one.sub(sin_t2).sqrt();
    let cia = cos_i.abs();
    let den_s = n2.mul(cia).add(n1.mul(cos_t));
    let den_p = n1.mul(cia).add(n2.mul(cos_t));
    if den_s.v == 0 || den_p.v == 0 {
        return one;
    }
    let rs = n2.mul(cia).sub(n1.mul(cos_t)).div(den_s);
    let rp = n1.mul(cia).sub(n2.mul(cos_t)).div(den_p);
    rs.mul(rs).add(rp.mul(rp)).div(Fx { v: FX_TWO })
}

/// The Fresnel/refraction solver of the integrator: the reflectance
/// fraction (clamped to `[0, 1]`, and exactly 1 under total internal
/// reflection or at a degenerate grazing incidence), the normalized
/// reflection direction, and the normalized refraction direction (the zero
/// vector under total internal reflection, where it carries no weight).
pub open spec fn light_calc_m(incident: Vec3M, normal: Vec3M, n1: int, n2: int) -> (
    int,
    Vec3M,
    Vec3M,
) {
    let n = fx_div(n1, n2);
    let ci = cos_i_m(incident, normal);
    let st2 = sin_t2_m(incident, normal, n1, n2);
    let pair = if st2 > FX_ONE {
        (FX_ONE as int, v3_zero())
    } else {
        let ct = fx_sqrt(fx_sub(FX_ONE as int, st2));
        let cia = fx_abs(ci);
        let den_o = fx_add(fx_mul(n1, cia), fx_mul(n2, ct));
        let den_p = fx_add(fx_mul(n2, cia), fx_mul(n1, ct));
        let refl = if den_o == 0 || den_p == 0 {
            FX_ONE as int
        } else {
            let ortho = fx_div(fx_sub(fx_mul(n1, cia), fx_mul(n2, ct)), den_o);
            let parallel = fx_div(fx_sub(fx_mul(n2, cia), fx_mul(n1, ct)), den_p);
            fx_clamp(
                fx_div(fx_add(fx_mul(ortho, ortho), fx_mul(parallel, parallel)), FX_TWO as int),
                0,
                FX_ONE as int,
            )
        };
        (refl, v3_add(v3_scale(n, incident), v3_scale(fx_sub(fx_mul(n, ci), ct), normal)))
    };
    (pair.0, v3_norm(reflect_m(incident, normal)), v3_norm(pair.1))
}

/// Shading recursion stops beyond this depth.
pub const MAX_ORDER: u8 = 5;

/// Raw offset of a shadow ray's origin toward its light: one tenth of a
/// unit, truncated to scale.
pub const SHADOW_BIAS: i64 = 6553;

/// Raw value of each color channel of the fixed background: one fifth of a
/// unit, truncated to scale.
pub const BACKGROUND_CHANNEL: i64 = 13107;

/// Opaque black, the color of exhausted recursion and of missed secondary
/// rays.
pub open spec fn black_m() -> ColorM {
    ColorM { r: 0, g: 0, b: 0, a: FX_ONE as int }
}

/// The fixed background color of missed primary rays.
pub open spec fn background_m() -> ColorM {
    ColorM {
        r: BACKGROUND_CHANNEL as int,
        g: BACKGROUND_CHANNEL as int,
        b: BACKGROUND_CHANNEL as int,
        a: FX_ONE as int,
    }
}

/// Opaque black.
pub fn black() -> (r: Color)
    ensures
        r@ == black_m(),
{
    Color { r: Fx { v: 0 }, g: Fx { v: 0 }, b: Fx { v: 0 }, a: Fx { v: FX_ONE } }
}

/// The fixed background color.
pub fn background() -> (r: Color)
    ensures
        r@ == background_m(),
{
    Color {
        r: Fx { v: BACKGROUND_CHANNEL },
        g: Fx { v: BACKGROUND_CHANNEL },
        b: Fx { v: BACKGROUND_CHANNEL },
        a: Fx { v: FX_ONE },
    }
}

/// The direction the integrator shoots a shadow ray in: against a
/// directional light's direction, or from the hit point toward a point
/// light.
pub open spec fn light_dir_trace_m(light: LightM, point: Vec3M) -> Vec3M {
    if light.light_type == LightType::Directional {
        v3_neg(v3_norm(light.direction))
    } else {
        v3_norm(v3_sub(light.location, point))
    }
}

/// Direct lighting at a hit: every light's Blinn-Phong contribution,
/// accumulated left to right with clamped addition, except that a light is
/// skipped entirely when a shadow ray — cast from the hit point offset a
/// tenth of a unit toward the light — intersects any shape.
pub open spec fn shade_m(
    shapes: Seq<ShapeM>,
    lights: Seq<LightM>,
    shape: ShapeM,
    point: Vec3M,
    normal: Vec3M,
) -> ColorM
    decreases lights.len(),
{
    if lights.len() == 0 {
        black_m()
    } else {
        let prev = shade_m(shapes, lights.drop_last(), shape, point, normal);
        let light = lights.last();
        let ldir = light_dir_trace_m(light, point);
        let sray = RayM {
            origin: v3_add(point, v3_scale(SHADOW_BIAS as int, ldir)),
            direction: ldir,
        };
        if cast_m(shapes, sray).shape is None {
            let dsp = blinn_phong_m(shape, light, point, v3_sub(v3_zero(), point), normal);
            c_add(c_add(prev, dsp.0), dsp.1)
        } else {
            prev
        }
    }
}

/// The recursive integrator.  Beyond the maximum depth the result is black.
/// Otherwise the nearest hit is shaded directly (`shade_m`), the medium
/// indices are chosen by the hit count (entering from outside: vacuum into
/// the shape; hit count 1, exiting: the shape into vacuum), and the
/// Fresnel-weighted reflection — and, unless the reflectance is full, the
/// complementary refraction — recurse one order deeper from the hit point.
/// A miss is the background color for a primary ray and black for any
/// deeper one.
pub open spec fn trace_m(scene: SceneM, ray: RayM, order: int) -> ColorM
    decreases 6 - order,
{
    if order > MAX_ORDER {
        black_m()
    } else {
        let c = cast_m(scene.shapes, ray);
        match c.shape {
            Option::Some(idx) => {
                let shape = scene.shapes[idx];
                let direct = shade_m(scene.shapes, scene.lights, shape, c.point, c.normal);
                let ri = shape_ri_m(shape);
                let nn = if c.hit_count == 1 {
                    (ri, FX_ONE as int)
                } else {
                    (FX_ONE as int, ri)
                };
                let lc = light_calc_m(ray.direction, c.normal, nn.0, nn.1);
                let col = c_add(
                    direct,
                    c_scale(
                        trace_m(scene, RayM { origin: c.point, direction: lc.1 }, order + 1),
                        lc.0,
                    ),
                );
                if lc.0 < FX_ONE {
                    c_add(
                        col,
                        c_scale(
                            trace_m(scene, RayM { origin: c.point, direction: lc.2 }, order + 1),
                            fx_sub(FX_ONE as int, lc.0),
                        ),
                    )
                } else {
                    col
                }
            },
            Option::None => if order == 0 {
                background_m()
            } else {
                black_m()
            },
        }
    }
}

/// Evaluates the color carried along `ray` at recursion depth `order`.
#[verifier::rlimit(100)]
pub fn trace(scene: &Scene, ray: Ray, order: u8) -> (r: Color)
    requires
        scene_wf(scene@),
    ensures
        r@ == trace_m(scene@, ray@, order as int),
        order > MAX_ORDER ==> r@ == black_m(),
        scene@.shapes.len() == 0 && order == 0 ==> r@ == background_m(),
        scene@.shapes.len() == 0 && order > 0 ==> r@ == black_m(),
    decreases 6 - order,
{
    if order > MAX_ORDER {
        return black();
    }
    let mut color = black();

    match ray_casting(scene, ray) {
        Some(hit) => {
            let shape = &scene.shapes[hit.shape_index];
            let mut li: usize = 0;
            while li < scene.lights.len()
                invariant
                    li <= scene.lights.len(),
                    hit.shape_index < scene.shapes@.len(),
                    shape@ == scene@.shapes[hit.shape_index as int],
                    color@ == shade_m(
                        scene@.shapes,
                        scene@.lights.subrange(0, li as int),
                        shape@,
                        hit.point@,
                        hit.normal@,
                    ),
                decreases scene.lights.len() - li,
            {
                let light = &scene.lights[li];
                let light_direction = if light.light_type == LightType::Directional {
                    light.direction.normalize().neg()
                } else {
                    light.location.sub(hit.point).normalize()
                };

                let sray = Ray {
                    origin: hit.point.add(light_direction.scale(Fx { v: SHADOW_BIAS })),
                    direction: light_direction,
                };

                let shadow_ray_result = ray_casting(scene, sray);

                if shadow_ray_result.is_none() {
                    let (diffuse, specular) = blinn_phong(
                        shape,
                        light,
                        hit.point,
                        Vector3::zero().sub(hit.point),
                        hit.normal,
                    );
                    color = color.add(diffuse).add(specular);
                }
                proof {
                    assert(scene@.lights.subrange(0, li + 1).drop_last() =~= scene@.lights
                        .subrange(0, li as int));
                    assert(scene@.lights.subrange(0, li + 1).last() == scene@.lights[li as int]);
                }
                li = li + 1;
            }
            proof {
                assert(scene@.lights.subrange(0, scene.lights@.len() as int) =~= scene@.lights);
            }

            let mut n1 = Fx { v: FX_ONE };
            let mut n2 = shape.refractive_index();
            if hit.hit_count == 1 {
                n1 = n2;
                n2 = Fx { v: FX_ONE };
            }
            let (reflectance, reflection_ray, refraction_ray) = light_calculation(
                ray.direction,
                hit.normal,
                n1,
                n2,
            );
            color = color.add(
                trace(
                    scene,
                    Ray { origin: hit.point, direction: reflection_ray },
                    order + 1,
                ).scale(reflectance),
            );
            if reflectance.v < FX_ONE {
                color = color.add(
                    trace(
                        scene,
                        Ray { origin: hit.point, direction: refraction_ray },
                        order + 1,
                    ).scale(Fx { v: FX_ONE }.sub(reflectance)),
                );
            }
        },
        None => {
            if order == 0 {
                color = background();
            }
        },
    }

    color
}

/// Computes the Fresnel reflectance and the reflected and refracted
/// directions for an incident ray at a surface, leaving a medium of index
/// `n1` for one of index `n2`.
pub fn light_calculation(incident: Vector3, normal: Vector3, n1: Fx, n2: Fx) -> (r: (
    Fx,
    Vector3,
    Vector3,
))
    requires
        n1@ > 0,
        n2@ > 0,
    ensures
        r.0@ == light_calc_m(incident@, normal@, n1@, n2@).0,
        r.1@ == light_calc_m(incident@, normal@, n1@, n2@).1,
        r.2@ == light_calc_m(incident@, normal@, n1@, n2@).2,
{
    let zero = Fx { v: 0 };
    let one = Fx { v: FX_ONE };
    let reflectance: Fx;
    let mut refraction_ray = Vector3::zero();

    let n = n1.div(n2);
    let cos_i = incident.dot(&normal).neg();
    let sin_t2 = n.mul(n).mul(one.sub(cos_i.mul(cos_i)).max_zero());
    if sin_t2.v > FX_ONE {
        reflectance = one;
    } else {
        let cos_t = one.sub(sin_t2).sqrt();
        let cos_i_abs = cos_i.abs();

        let den_o = n1.mul(cos_i_abs).add(n2.mul(cos_t));
        let den_p = n2.mul(cos_i_abs).add(n1.mul(cos_t));
        if den_o.v == 0 || den_p.v == 0 {
            reflectance = one;
        } else {
            let ortho = n1.mul(cos_i_abs).sub(n2.mul(cos_t)).div(den_o);
            let parallel = n2.mul(cos_i_abs).sub(n1.mul(cos_t)).div(den_p);
            reflectance = clamp(
                ortho.mul(ortho).add(parallel.mul(parallel)).div(Fx { v: FX_TWO }),
                zero,
                one,
            );
        }
        refraction_ray = incident.scale(n).add(normal.scale(n.mul(cos_i).sub(cos_t)));
    }

    let reflection_ray = incident.add(normal.scale(Fx { v: FX_TWO }.mul(cos_i)));

    (reflectance, reflection_ray.normalize(), refraction_ray.normalize())
}

/// The model of the pixel at `(x, y)`: the integrator applied to that
/// pixel's primary ray at order zero.
pub open spec fn pixel_m(scene: SceneM, x: int, y: int) -> ColorM {
    trace_m(
        scene,
        RayM {
            origin: v3_zero(),
            direction: crate::ray::primary_dir_m(x, y, scene.width, scene.height, scene.fov_adjustment),
        },
        0,
    )
}

/// Renders the scene into a row-major pixel buffer: entry `y * width + x`
/// holds the traced color of pixel `(x, y)`.  Writing the buffer to an
/// output surface, and gamma encoding it, is its consumer's business.
pub fn render(scene: &Scene) -> (r: Vec<Color>)
    requires
        scene.width > scene.height,
        scene.height >= 1,
        scene_wf(scene@),
        scene.width * scene.height <= usize::MAX,
    ensures
        r@.len() == scene.width * scene.height,
        forall|x: int, y: int|
            0 <= x < scene.width && 0 <= y < scene.height ==> r@[y * scene.width + x]@
                == pixel_m(scene@, x, y),
{
    let mut pixels: Vec<Color> = Vec::new();
    let mut y: u32 = 0;
    while y < scene.height
        invariant
            y <= scene.height,
            scene.width > scene.height,
            scene.height >= 1,
            scene_wf(scene@),
            pixels@.len() == y * scene.width,
            forall|xx: int, yy: int|
                0 <= xx < scene.width && 0 <= yy < y ==> pixels@[yy * scene.width + xx]@
                    == pixel_m(scene@, xx, yy),
        decreases scene.height - y,
    {
        let mut x: u32 = 0;
        while x < scene.width
            invariant
                x <= scene.width,
                y < scene.height,
                scene.width > scene.height,
                scene.height >= 1,
                scene_wf(scene@),
                pixels@.len() == y * scene.width + x,
                forall|xx: int, yy: int|
                    0 <= xx < scene.width && 0 <= yy < y ==> pixels@[yy * scene.width + xx]@
                        == pixel_m(scene@, xx, yy),
                forall|xx: int|
                    0 <= xx < x ==> pixels@[y * scene.width + xx]@ == pixel_m(scene@, xx, y as int),
            decreases scene.width - x,
        {
            let ray = Ray::create_primary_ray(x, y, scene);
            let color = trace(scene, ray, 0);
            pixels.push(color);
            proof {
                assert forall|xx: int, yy: int|
                    0 <= xx < scene.width && 0 <= yy < y implies pixels@[yy * scene.width + xx]@
                    == pixel_m(scene@, xx, yy) by {
                    assert(0 <= yy * scene.width + xx < y * scene.width) by (nonlinear_arith)
                        requires
                            0 <= yy < y,
                            0 <= xx < scene.width,
                    ;
                }
            }
            x = x + 1;
        }
        proof {
            assert((y + 1) * scene.width == y * scene.width + scene.width) by (nonlinear_arith);
            assert forall|xx: int, yy: int|
                0 <= xx < scene.width && 0 <= yy < y + 1 implies pixels@[yy * scene.width + xx]@
                == pixel_m(scene@, xx, yy) by {
                assert(0 <= yy * scene.width + xx < (y + 1) * scene.width) by (nonlinear_arith)
                    requires
                        0 <= yy <= y,
                        0 <= xx < scene.width,
                ;
                if yy < y {
                    assert(pixels@[yy * scene.width + xx]@ == pixel_m(scene@, xx, yy));
                } else {
                    assert(pixels@[y * scene.width + xx]@ == pixel_m(scene@, xx, y as int));
                }
            }
        }
        y = y + 1;
    }
    proof {
        assert(scene.height * scene.width == scene.width * scene.height) by (nonlinear_arith);
    }
    pixels
}

/// The two recursion weights of the integrator are complementary: whenever
/// refraction is geometrically possible (`sin_t² ≤ 1`), the reflectance is
/// a true fraction of `[0, 1]`, and it and its complement `1 - R` — the
/// weights of the reflected and refracted rays — sum to one exactly.
pub proof fn lemma_fresnel_weights(incident: Vec3M, normal: Vec3M, n1: int, n2: int)
    requires
        n1 > 0,
        n2 > 0,
        sin_t2_m(incident, normal, n1, n2) <= FX_ONE,
    ensures
        0 <= light_calc_m(incident, normal, n1, n2).0,
        light_calc_m(incident, normal, n1, n2).0 <= FX_ONE,
        light_calc_m(incident, normal, n1, n2).0 + fx_sub(
            FX_ONE as int,
            light_calc_m(incident, normal, n1, n2).0,
        ) == FX_ONE,
{
}

/// Total internal reflection: whenever `sin_t² > 1` the solver reports a
/// reflectance of exactly one.
pub proof fn lemma_total_internal_reflection(incident: Vec3M, normal: Vec3M, n1: int, n2: int)
    requires
        n1 > 0,
        n2 > 0,
        sin_t2_m(incident, normal, n1, n2) > FX_ONE,
    ensures
        light_calc_m(incident, normal, n1, n2).0 == FX_ONE,
{
}

/// Under total internal reflection the integrator never samples the
/// refraction ray: at a hit whose medium transition gives `sin_t² > 1`, the
/// traced color is exactly the direct lighting plus the reflection
/// recursion at full weight, with no refraction term.
pub proof fn lemma_tir_skips_refraction(scene: SceneM, ray: RayM, order: int, idx: int)
    requires
        0 <= order <= MAX_ORDER,
        cast_m(scene.shapes, ray).shape == Option::<int>::Some(idx),
        ({
            let c = cast_m(scene.shapes, ray);
            let ri = shape_ri_m(scene.shapes[idx]);
            let nn = if c.hit_count == 1 {
                (ri, FX_ONE as int)
            } else {
                (FX_ONE as int, ri)
            };
            sin_t2_m(ray.direction, c.normal, nn.0, nn.1) > FX_ONE
        }),
    ensures
        ({
            let c = cast_m(scene.shapes, ray);
            let shape = scene.shapes[idx];
            let ri = shape_ri_m(shape);
            let nn = if c.hit_count == 1 {
                (ri, FX_ONE as int)
            } else {
                (FX_ONE as int, ri)
            };
            let lc = light_calc_m(ray.direction, c.normal, nn.0, nn.1);
            trace_m(scene, ray, order) == c_add(
                shade_m(scene.shapes, scene.lights, shape, c.point, c.normal),
                c_scale(
                    trace_m(scene, RayM { origin: c.point, direction: lc.1 }, order + 1),
                    FX_ONE as int,
                ),
            )
        }),
{
}

} // verus!
