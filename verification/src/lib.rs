//! Verified geometric core of a small ray tracer.
//!
//! Everything here is exact. Points, vectors and matrices have integer
//! coordinates (the lattice), fractions keep numerator and denominator, and
//! the distance at which a ray hits a shape is kept in closed form, square
//! root and all. Contracts are stated over models with unbounded integers,
//! and an operation asks only that its exact result is on the lattice.
//!
//! - [`vector`], [`point`], [`matrix`], [`ray`]: lattice values and their
//!   algebra; [`algebra`]: identities of the dot and cross products.
//! - [`base`]: the nine conditions that make three vectors a direct
//!   orthonormal base, the order they are examined in, and the diagnosis.
//! - [`cs`]: coordinate systems, built from three axes or completed from
//!   one, with the two matrices that lead to and from the reference system.
//! - [`image`], [`sampler`], [`plane`]: image sizes, the order in which
//!   pixels are visited, and where pixels lie on the image plane.
//! - [`shapes`]: the ball and the cylinder, and where a ray hits them.
//!
//! Arithmetic on floating-point numbers is left to the caller, who can hand
//! the outcomes of its own comparisons to [`base::BaseChecks::verdict`], and
//! turn fractions and closed forms into numbers as it sees fit.

pub mod algebra;
pub mod base;
pub mod cs;
pub mod image;
pub mod matrix;
pub mod plane;
pub mod point;
pub mod ray;
pub mod sampler;
pub mod shapes;
pub mod vector;

pub use crate::base::{check_base, BaseChecks, BaseError};
pub use crate::cs::{CompletionCase, Cs};
pub use crate::image::{ImageSize, SizeError};
pub use crate::matrix::Matrix;
pub use crate::plane::Ratio;
pub use crate::point::Point;
pub use crate::ray::Ray;
pub use crate::sampler::Sampler;
pub use crate::shapes::ball::Ball;
pub use crate::shapes::cylinder::Cylinder;
pub use crate::shapes::{Distance, Shapes, Surd};
pub use crate::vector::Vector;
