//! A small linear-algebra kernel for renderer-style geometry: 2D/3D vectors,
//! affine points, surface normals, fixed-size square matrices, and rays with
//! differential information.
//!
//! Components are exact integer scalars described by the capability traits in
//! [`scalar`]; every operation carries a contract that pins its result down to
//! the mathematical component formula.

pub mod common;
pub mod matrix;
pub mod normal;
pub mod point;
pub mod ray;
pub mod scalar;
pub mod vector;
