//! Vectors of two, three and four components.

pub mod vector2;
pub mod vector3;
pub mod vector4;

pub use self::vector2::{Vector2, Vector2i32, Vector2i64, Vector2u32, Vector2u64};
pub use self::vector3::{Vector3, Vector3i32, Vector3i64, Vector3u32, Vector3u64};
pub use self::vector4::{Vector4, Vector4i32, Vector4i64, Vector4u32, Vector4u64};
