use raytracer::color::Color;
use raytracer::light::{Light, LightType};
use raytracer::math::vector::Vector3;
use raytracer::math::Fx;
use raytracer::ray::Ray;
use raytracer::scene::{
    fresnel, light_calculation, ray_casting, reflection, refraction, render, trace, Scene,
};
use raytracer::shape::{Shape, Sphere};

fn fx(v: i64) -> Fx {
    Fx { v }
}

fn v3(x: i64, y: i64, z: i64) -> Vector3 {
    Vector3 { x: Fx::from_int(x), y: Fx::from_int(y), z: Fx::from_int(z) }
}

fn white() -> Color {
    Color { r: fx(65536), g: fx(65536), b: fx(65536), a: fx(65536) }
}

fn sphere_at(z: i64, color: Color, refractive_index: Fx) -> Shape {
    Shape::Sphere(Sphere {
        center: v3(0, 0, z),
        radius: Fx::from_int(1),
        color,
        refractive_index,
    })
}

fn empty_scene() -> Scene {
    Scene {
        width: 4,
        height: 2,
        fov_adjustment: fx(65536),
        lights: Vec::new(),
        shapes: Vec::new(),
    }
}

#[test]
fn fresnel_weights_at_normal_incidence() {
    // vacuum into glass (1.5) head on: about four percent reflects
    let (reflectance, reflect_dir, refract_dir) =
        light_calculation(v3(0, 0, -1), v3(0, 0, 1), fx(65536), fx(98304));
    assert_eq!(reflectance.v, 2621);
    // weights of the two recursive rays sum to one exactly
    assert_eq!(reflectance.v + fx(65536).sub(reflectance).v, 65536);
    assert_eq!((reflect_dir.x.v, reflect_dir.y.v, reflect_dir.z.v), (0, 0, 65536));
    assert_eq!((refract_dir.x.v, refract_dir.y.v, refract_dir.z.v), (0, 0, -65536));
}

#[test]
fn total_internal_reflection_is_full() {
    // glass into vacuum at grazing incidence: sin_t^2 > 1
    let (reflectance, _, refract_dir) =
        light_calculation(v3(1, 0, 0), v3(0, 0, 1), fx(98304), fx(65536));
    assert_eq!(reflectance.v, 65536);
    // the refraction direction carries no weight and stays zero
    assert_eq!((refract_dir.x.v, refract_dir.y.v, refract_dir.z.v), (0, 0, 0));
}

#[test]
fn fresnel_standalone_matches() {
    let r = fresnel(v3(0, 0, -1), v3(0, 0, 1), fx(65536), fx(98304));
    assert_eq!(r.v, 2621);
}

#[test]
fn reflection_mirrors_incident() {
    let r = reflection(v3(0, 0, -1), v3(0, 0, 1));
    assert_eq!((r.x.v, r.y.v, r.z.v), (0, 0, 65536));
}

#[test]
fn refraction_straight_through_equal_media() {
    let r = refraction(v3(0, 0, -1), v3(0, 0, 1), fx(65536), fx(65536)).unwrap();
    assert_eq!((r.x.v, r.y.v, r.z.v), (0, 0, -65536));
}

#[test]
fn refraction_none_under_tir() {
    assert!(refraction(v3(1, 0, 0), v3(0, 0, 1), fx(98304), fx(65536)).is_none());
}

#[test]
fn ray_casting_picks_nearest() {
    let near = sphere_at(-5, white(), fx(65536));
    let far = sphere_at(-10, white(), fx(65536));
    let ray = Ray { origin: Vector3::zero(), direction: v3(0, 0, -1) };

    let mut scene = empty_scene();
    scene.shapes = vec![near, far];
    let hit = ray_casting(&scene, ray).unwrap();
    assert_eq!(hit.shape_index, 0);
    assert_eq!((hit.point.x.v, hit.point.y.v, hit.point.z.v), (0, 0, -262144));
    assert_eq!(hit.hit_count, 2);

    scene.shapes = vec![far, near];
    let hit = ray_casting(&scene, Ray { origin: Vector3::zero(), direction: v3(0, 0, -1) })
        .unwrap();
    assert_eq!(hit.shape_index, 1);
    assert_eq!((hit.point.x.v, hit.point.y.v, hit.point.z.v), (0, 0, -262144));
}

#[test]
fn ray_casting_reports_miss() {
    let scene = empty_scene();
    let ray = Ray { origin: Vector3::zero(), direction: v3(0, 0, -1) };
    assert!(ray_casting(&scene, ray).is_none());
}

#[test]
fn trace_beyond_max_depth_is_black() {
    let mut scene = empty_scene();
    scene.shapes = vec![sphere_at(-5, white(), fx(65536))];
    let ray = Ray { origin: Vector3::zero(), direction: v3(0, 0, -1) };
    let c = trace(&scene, ray, 6);
    assert_eq!((c.r.v, c.g.v, c.b.v, c.a.v), (0, 0, 0, 65536));
}

#[test]
fn trace_empty_scene_background_then_black() {
    let scene = empty_scene();
    let ray = Ray { origin: Vector3::zero(), direction: v3(0, 0, -1) };
    let c0 = trace(&scene, ray, 0);
    assert_eq!((c0.r.v, c0.g.v, c0.b.v, c0.a.v), (13107, 13107, 13107, 65536));
    let c1 = trace(&scene, Ray { origin: Vector3::zero(), direction: v3(0, 0, -1) }, 1);
    assert_eq!((c1.r.v, c1.g.v, c1.b.v, c1.a.v), (0, 0, 0, 65536));
}

#[test]
fn trace_lit_sphere_exact_color() {
    let mut scene = empty_scene();
    scene.shapes = vec![sphere_at(
        -5,
        Color { r: fx(32768), g: fx(65536), b: fx(32768), a: fx(65536) },
        fx(98304),
    )];
    scene.lights = vec![Light {
        location: Vector3::zero(),
        direction: v3(0, 0, -1),
        light_type: LightType::Directional,
        diffuse_color: Color { r: fx(16384), g: fx(16384), b: fx(16384), a: fx(65536) },
        specular_color: Color { r: fx(0), g: fx(0), b: fx(0), a: fx(65536) },
    }];
    let ray = Ray { origin: Vector3::zero(), direction: v3(0, 0, -1) };
    let c = trace(&scene, ray, 0);
    assert_eq!((c.r.v, c.g.v, c.b.v, c.a.v), (23917, 47838, 23917, 65536));
}

#[test]
fn primary_ray_at_image_center_points_forward() {
    let mut scene = empty_scene();
    scene.width = 800;
    scene.height = 600;
    // field of view 90 degrees: the half-angle tangent is exactly one
    scene.fov_adjustment = fx(65536);
    let ray = Ray::create_primary_ray(400, 300, &scene);
    assert_eq!((ray.origin.x.v, ray.origin.y.v, ray.origin.z.v), (0, 0, 0));
    assert_eq!(ray.direction.z.v, -65536);
    assert!(ray.direction.x.v.abs() < 328);
    assert!(ray.direction.y.v.abs() < 328);
    assert_eq!((ray.direction.x.v, ray.direction.y.v), (106, -108));
}

#[test]
fn render_fills_row_major_buffer() {
    let mut scene = empty_scene();
    scene.width = 2;
    scene.height = 1;
    let pixels = render(&scene);
    assert_eq!(pixels.len(), 2);
    for p in &pixels {
        assert_eq!((p.r.v, p.g.v, p.b.v, p.a.v), (13107, 13107, 13107, 65536));
    }
    let ray = Ray::create_primary_ray(0, 0, &scene);
    let direct = trace(&scene, ray, 0);
    assert_eq!(pixels[0], direct);
}
