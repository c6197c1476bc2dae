//! A signed-distance-field algebra over 2D implicit shapes.
//!
//! Shapes are expression trees over scalar and vector values. Evaluating a
//! tree at a sample position yields a signed distance: negative inside the
//! shape, zero on its boundary, positive outside. Trees are composed through
//! boolean-like combinators (union = pointwise minimum, intersection =
//! pointwise maximum, blend = affine interpolation) built from a small
//! arithmetic operator set. All scalars are a single integral kind (`i64`);
//! the Euclidean length of a vector is the floor of the square root of
//! `x*x + y*y`.

pub mod expression;
pub mod math;
pub mod node;
pub mod ops;
pub mod primitives;
pub mod tree;
pub mod variable;
pub mod vec2;

pub use primitives::circle;
pub use primitives::rectangle;
pub use tree::Tree;
pub use vec2::Vec2;
