//! Exact finite elements with statically checked dimensions.
//!
//! Every entity is parameterised by dimension tags: the dimension of the
//! geometry an element is embedded in, the dimension of its reference domain
//! and the number of its nodes. The tags are the type-level integers of
//! `nalgebra`, so the same tag selects the exact storage of this crate and the
//! floating-point storage of `nalgebra`.
//!
//! Coordinates are exact. Vertices lie on the integer lattice, a reference
//! coordinate is a vector of rationals over one denominator, and a mapped
//! coordinate is delivered over that same denominator. What a map computes is
//! stated over the reals and proved, with no rounding anywhere.

pub mod coordinates;
pub mod dimension;
pub mod edge;
pub mod element;
pub mod geometry;

pub use coordinates::{GeometryCoordinates, LatticePoint, ReferenceCoordinates};
pub use dimension::{Dimension, FiniteElementAllocator};
pub use edge::{problematic_function, Edge2dElement};
pub use element::{
    ElementConnectivity, FiniteElement, GeometricFiniteElementSpace, ReferenceFiniteElement,
};
pub use geometry::{LineSegment, Polygon};
pub use nalgebra::{Const, DefaultAllocator, U1, U2, U3};
