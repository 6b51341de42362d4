//! Geometric kernel of a ray tracer: vectors, points, colours, rays,
//! axis-aligned boxes and hit records over binary64 scalars.

pub mod bbox;
pub mod color;
pub mod intersection;
pub mod point;
pub mod ray;
pub mod scalar;
pub mod vector;

pub use bbox::BBox;
pub use color::Color;
pub use intersection::{Intersection, Primitive};
pub use point::Point;
pub use ray::Ray;
pub use vector::Vector;
