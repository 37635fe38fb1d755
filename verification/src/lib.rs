//! Fixed-size vectors of two, three and four single-precision components,
//! with the elementwise operations that every shape shares.
//!
//! A component is a [`Scalar`]: an IEEE-754 binary32 number carried by its
//! 32-bit encoding, so that comparisons and sign changes are exact integer
//! facts. Each shape offers the same building blocks (`map`, `zip_with`,
//! `zip_with_scalar`, `fold`), specified through the contract of the function
//! that is handed to them. Negation and the comparisons are part of the
//! shapes; sums, differences, products and quotients are whatever operation
//! on two components the caller hands to `zip_with` or `zip_with_scalar`.

pub mod prelude;
pub mod scalar;
pub mod vec2;
pub mod vec3;
pub mod vec4;

pub use crate::scalar::Scalar;
pub use crate::vec2::Vec2;
pub use crate::vec3::Vec3;
pub use crate::vec4::Vec4;
