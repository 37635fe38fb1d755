//! The three shapes and their component type, for a single import.

pub use crate::scalar::Scalar;
pub use crate::vec2::Vec2;
pub use crate::vec3::Vec3;
pub use crate::vec4::Vec4;
