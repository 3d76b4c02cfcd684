use raytracer::color::Color;
use raytracer::math::vector::Vector3;
use raytracer::math::Fx;
use raytracer::ray::Ray;
use raytracer::shape::{Intersectable, Cube, Shape, Sphere};

fn fx(v: i64) -> Fx {
    Fx { v }
}

fn v3(x: i64, y: i64, z: i64) -> Vector3 {
    Vector3 { x: Fx::from_int(x), y: Fx::from_int(y), z: Fx::from_int(z) }
}

fn test_sphere() -> Sphere {
    Sphere {
        center: v3(0, 0, -5),
        radius: Fx::from_int(1),
        color: Color { r: fx(26214), g: fx(65536), b: fx(26214), a: fx(65536) },
        refractive_index: Fx::from_int(1),
    }
}

#[test]
fn goo() {
    let sphere = test_sphere();

    let mut ray = Ray { origin: Vector3::zero(), direction: v3(0, 1, 0) };
    assert_eq!(sphere.intersect(&ray).is_none(), true);

    ray = Ray { origin: Vector3::zero(), direction: v3(0, 0, -1) };
    assert_eq!(sphere.intersect(&ray).is_some(), true);

    ray = Ray { origin: v3(0, 0, -5), direction: v3(0, 1, 0) };
    assert_eq!(sphere.intersect(&ray).is_some(), true);

    ray = Ray { origin: v3(0, -1, -5), direction: v3(0, 1, 0) };
    assert_eq!(sphere.intersect(&ray).is_some(), true);

    ray = Ray { origin: v3(0, 1, -5), direction: v3(0, 1, 0) };
    assert_eq!(sphere.intersect(&ray).is_none(), true);

    ray = Ray { origin: v3(0, 0, 0), direction: v3(0, 0, -1) };
    let hit = sphere.intersect(&ray).unwrap();
    println!("{:?}, {:?}", hit.normal, hit.point);
}

#[test]
fn sphere_entry_from_outside_counts_two() {
    let sphere = test_sphere();
    let ray = Ray { origin: Vector3::zero(), direction: v3(0, 0, -1) };
    let hit = sphere.intersect(&ray).unwrap();
    assert_eq!(hit.hit_count, 2);
    // entry point one radius in front of the center, normal facing back
    assert_eq!((hit.point.x.v, hit.point.y.v, hit.point.z.v), (0, 0, -262144));
    assert_eq!((hit.normal.x.v, hit.normal.y.v, hit.normal.z.v), (0, 0, 65536));
}

#[test]
fn sphere_miss_above() {
    let sphere = test_sphere();
    let ray = Ray { origin: Vector3::zero(), direction: v3(0, 1, 0) };
    assert!(sphere.intersect(&ray).is_none());
}

#[test]
fn sphere_from_center_hits() {
    let sphere = test_sphere();
    let ray = Ray { origin: v3(0, 0, -5), direction: v3(0, 1, 0) };
    let hit = sphere.intersect(&ray).unwrap();
    assert!(hit.hit_count > 0);
}

#[test]
fn sphere_diverging_misses() {
    let sphere = test_sphere();
    let ray = Ray { origin: v3(0, 1, -5), direction: v3(0, 1, 0) };
    assert!(sphere.intersect(&ray).is_none());
}

#[test]
fn sphere_surface_start_uses_far_root() {
    // a ray starting on the surface (near root exactly zero) resolves with
    // the far root instead of the degenerate near one
    let sphere = test_sphere();
    let ray = Ray { origin: v3(0, -1, -5), direction: v3(0, 1, 0) };
    let hit = sphere.intersect(&ray).unwrap();
    assert_eq!(hit.hit_count, 1);
    assert_eq!((hit.point.x.v, hit.point.y.v, hit.point.z.v), (0, 65536, -327680));
}

#[test]
fn cube_never_hits() {
    let cube = Cube {
        location: v3(0, 0, -5),
        color: Color { r: fx(65536), g: fx(0), b: fx(0), a: fx(65536) },
        extent: v3(1, 1, 1),
        refractive_index: Fx::from_int(1),
    };
    let ray = Ray { origin: Vector3::zero(), direction: v3(0, 0, -1) };
    assert!(cube.intersect(&ray).is_none());
}

#[test]
fn shape_dispatch_matches_sphere() {
    let shape = Shape::Sphere(test_sphere());
    let ray = Ray { origin: Vector3::zero(), direction: v3(0, 0, -1) };
    let hit = shape.intersect(&ray).unwrap();
    assert_eq!(hit.hit_count, 2);
    assert_eq!(shape.refractive_index().v, 65536);
    assert_eq!(shape.color().r.v, 26214);
    assert_eq!(shape.location().z.v, -327680);
}
