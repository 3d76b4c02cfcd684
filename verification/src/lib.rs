//! A small recursive ray tracer with a verified shading pipeline.
//!
//! The scene model, the sphere intersection test, the Blinn-Phong direct
//! lighting, the Fresnel/refraction solver and the recursive integrator are
//! all implemented over the fixed-point scalar type [`math::Fx`], and every
//! function carries a contract that pins its result down to an exact
//! mathematical mirror of the computation.  Floating-point work that cannot
//! be verified (the tangent of the field of view, gamma encoding of final
//! pixels, image-file output) lives outside the library and exchanges plain
//! values with it.

pub mod color;
pub mod light;
pub mod math;
pub mod ray;
pub mod scene;
pub mod shape;
