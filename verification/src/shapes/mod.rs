//! Boxes, balls and line segments in two, three and four dimensions.

pub mod area2d;
pub mod area3d;
pub mod area4d;
pub mod bounds2d;
pub mod bounds3d;
pub mod bounds4d;
pub mod circle;
pub mod cube;
pub mod hyper_sphere;
pub mod line2d;
pub mod line3d;
pub mod line4d;
pub mod rect;
pub mod sphere;

pub use self::area2d::Area2D;
pub use self::area3d::Area3D;
pub use self::area4d::Area4D;
pub use self::bounds2d::Bounds2D;
pub use self::bounds3d::Bounds3D;
pub use self::bounds4d::Bounds4D;
pub use self::circle::Circle;
pub use self::cube::Cube;
pub use self::hyper_sphere::HyperSphere;
pub use self::line2d::Line2D;
pub use self::line3d::Line3D;
pub use self::line4d::Line4D;
pub use self::rect::Rect;
pub use self::sphere::Sphere;
