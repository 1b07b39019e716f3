//! Dimension tags and the storage that each of them selects.

use crate::coordinates::{GeometryCoordinates, ReferenceCoordinates};
use nalgebra::{Const, DefaultAllocator};
use vstd::prelude::*;

verus! {

/// `nalgebra::Const`, the type-level integer `R`. It has no fields: all it
/// carries is its parameter.
#[verifier::external_type_specification]
#[verifier::external_body]
pub struct ExConst<const R: usize>(Const<R>);

/// `nalgebra::DefaultAllocator`, the allocator that `nalgebra` uses for every
/// shape. It has no fields, and this library only names it in bounds.
#[verifier::external_type_specification]
#[verifier::external_body]
pub struct ExDefaultAllocator(DefaultAllocator);

/// A dimension known at compile time, with the exact storage for coordinate
/// vectors of that many components.
pub trait Dimension {
    /// Storage for a coordinate in a reference domain of this dimension.
    type Reference: View<V = Seq<real>>;

    /// Storage for a coordinate in geometry of this dimension.
    type Geometry: View<V = Seq<real>>;

    /// The dimension as a number.
    spec fn dim() -> nat;

    /// A reference coordinate of this dimension has `dim()` components.
    proof fn lemma_reference_len(c: Self::Reference)
        ensures
            c@.len() == Self::dim(),
    ;

    /// A coordinate in geometry of this dimension has `dim()` components.
    proof fn lemma_geometry_len(c: Self::Geometry)
        ensures
            c@.len() == Self::dim(),
    ;
}

impl<const N: usize> Dimension for Const<N> {
    type Reference = ReferenceCoordinates<N>;

    type Geometry = GeometryCoordinates<N>;

    open spec fn dim() -> nat {
        N as nat
    }

    proof fn lemma_reference_len(c: ReferenceCoordinates<N>) {
        c.lemma_len();
    }

    proof fn lemma_geometry_len(c: GeometryCoordinates<N>) {
        c.lemma_len();
    }
}

/// The capability to store what a finite element with `NodalDim` nodes in
/// `GeometryDim`-dimensional geometry needs. A bound on it holds exactly
/// where both tags are dimensions, and fails the build elsewhere.
pub trait FiniteElementAllocator<GeometryDim, NodalDim> where
    GeometryDim: Dimension,
    NodalDim: Dimension,
 {
}

impl<GeometryDim, NodalDim> FiniteElementAllocator<GeometryDim, NodalDim> for DefaultAllocator where
    GeometryDim: Dimension,
    NodalDim: Dimension,
 {
}

} // verus!
