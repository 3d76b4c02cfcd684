use raytracer::math::clamp;
use raytracer::math::vector::Vector3;
use raytracer::math::{Fx, Math};

fn fx(v: i64) -> Fx {
    Fx { v }
}

#[test]
fn from_int_scales() {
    assert_eq!(Fx::from_int(3).v, 196608);
    assert_eq!(Fx::from_int(-2).v, -131072);
    assert_eq!(Fx::from_int(0).v, 0);
}

#[test]
fn add_saturates() {
    assert_eq!(fx(65536).add(fx(65536)).v, 131072);
    assert_eq!(fx(i64::MAX).add(fx(i64::MAX)).v, i64::MAX);
    assert_eq!(fx(-i64::MAX).sub(fx(i64::MAX)).v, -i64::MAX);
}

#[test]
fn mul_truncates_toward_zero() {
    // 0.5 * 0.5 == 0.25
    assert_eq!(fx(32768).mul(fx(32768)).v, 16384);
    // tiny magnitudes truncate to zero, regardless of sign
    assert_eq!(fx(106).mul(fx(106)).v, 0);
    assert_eq!(fx(-106).mul(fx(106)).v, 0);
    // sign rules
    assert_eq!(fx(-131072).mul(fx(196608)).v, -393216);
    assert_eq!(fx(-131072).mul(fx(-196608)).v, 393216);
}

#[test]
fn div_exact_and_truncated() {
    // 1 / 2 == 0.5
    assert_eq!(fx(65536).div(fx(131072)).v, 32768);
    // 2/3 truncates
    assert_eq!(fx(131072).div(fx(196608)).v, 43690);
    assert_eq!(fx(-131072).div(fx(196608)).v, -43690);
}

#[test]
fn neg_and_abs_handle_extremes() {
    assert_eq!(fx(i64::MIN).neg().v, i64::MAX);
    assert_eq!(fx(i64::MIN).abs().v, i64::MAX);
    assert_eq!(fx(-5).neg().v, 5);
    assert_eq!(fx(-5).abs().v, 5);
    assert_eq!(fx(5).abs().v, 5);
}

#[test]
fn sqrt_exact_and_floor() {
    assert_eq!(Fx::from_int(4).sqrt().v, 131072);
    assert_eq!(Fx::from_int(25).sqrt().v, 327680);
    // sqrt(2) rounds down to scale
    assert_eq!(Fx::from_int(2).sqrt().v, 92681);
    assert_eq!(fx(0).sqrt().v, 0);
}

#[test]
fn clamp_picks_bound() {
    assert_eq!(clamp(fx(-5), fx(0), fx(65536)).v, 0);
    assert_eq!(clamp(fx(70000), fx(0), fx(65536)).v, 65536);
    assert_eq!(clamp(fx(1234), fx(0), fx(65536)).v, 1234);
}

#[test]
fn nearly_zero_is_one_step_wide() {
    assert!(fx(0).is_nearly_zero());
    assert!(!fx(1).is_nearly_zero());
    assert!(!fx(-1).is_nearly_zero());
    assert!(!fx(65536).is_nearly_zero());
}

#[test]
fn vector_normalize_three_four() {
    let v = Vector3 { x: Fx::from_int(3), y: Fx::from_int(4), z: Fx { v: 0 } };
    assert_eq!(v.size_squared().v, 25 * 65536);
    assert_eq!(v.length().v, 5 * 65536);
    let n = v.normalize();
    assert_eq!(n.x.v, 39321);
    assert_eq!(n.y.v, 52428);
    assert_eq!(n.z.v, 0);
}

#[test]
fn vector_normalize_zero_stays_zero() {
    let z = Vector3::zero();
    let n = z.normalize();
    assert_eq!((n.x.v, n.y.v, n.z.v), (0, 0, 0));
}

#[test]
fn vector_dot_and_cross() {
    let a = Vector3 { x: Fx::from_int(1), y: Fx::from_int(2), z: Fx::from_int(3) };
    let b = Vector3 { x: Fx::from_int(4), y: Fx::from_int(-5), z: Fx::from_int(6) };
    assert_eq!(a.dot(&b).v, 12 * 65536);
    let c = a.cross(&b);
    assert_eq!(c.x.v, 27 * 65536);
    assert_eq!(c.y.v, 6 * 65536);
    assert_eq!(c.z.v, -13 * 65536);
}
