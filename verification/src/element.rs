//! The contracts that tie elements, connectivities and spaces to their
//! dimension tags.

use crate::dimension::{Dimension, FiniteElementAllocator};
use nalgebra::DefaultAllocator;
use vstd::prelude::*;

verus! {

/// A kind of element on its reference domain. All it declares is how many
/// nodes it has.
pub trait ReferenceFiniteElement {
    /// The number of nodes.
    type NodalDim: Dimension;
}

/// An element embedded in geometry: a map from its reference domain, of
/// dimension `ReferenceDim`, into geometry of dimension `GeometryDim`.
pub trait FiniteElement<GeometryDim, ReferenceDim = GeometryDim>: ReferenceFiniteElement where
    GeometryDim: Dimension,
    ReferenceDim: Dimension,
    DefaultAllocator: FiniteElementAllocator<GeometryDim, Self::NodalDim>,
 {
    /// The map of this element as a function on real vectors. The default
    /// says nothing: of an element that keeps it the map is unknown, and no
    /// body can be proved against it.
    open spec fn spec_map(&self, reference_coordinate: Seq<real>) -> Seq<real> {
        arbitrary()
    }

    /// The point of the element at `reference_coordinate`. It depends on
    /// nothing but the element and the coordinate.
    fn map_reference_coords(&self, reference_coordinate: &ReferenceDim::Reference) -> (x:
        GeometryDim::Geometry)
        ensures
            x@ == self.spec_map(reference_coordinate@),
            x@.len() == GeometryDim::dim(),
    ;
}

/// What a mesh needs to know to make elements from its node table: the
/// element type and the number of node indices that each element takes.
pub trait ElementConnectivity<GeometryDim, ReferenceDim = GeometryDim> where
    GeometryDim: Dimension,
    ReferenceDim: Dimension,
    DefaultAllocator: FiniteElementAllocator<GeometryDim, Self::NodalDim>,
 {
    /// The element, with as many nodes as the connectivity has indices.
    type Element: FiniteElement<GeometryDim, ReferenceDim, NodalDim = Self::NodalDim>;

    /// The number of node indices of one element.
    type NodalDim: Dimension;
}

/// A family of elements over a geometry: its three dimensions and a
/// connectivity that agrees with all of them.
pub trait GeometricFiniteElementSpace where
    DefaultAllocator: FiniteElementAllocator<Self::GeometryDim, Self::NodalDim>,
 {
    /// The dimension of the geometry.
    type GeometryDim: Dimension;

    /// The dimension of the reference domain of the elements.
    type ReferenceDim: Dimension;

    /// The number of nodes of each element.
    type NodalDim: Dimension;

    /// The connectivity of the elements of the space.
    type Connectivity: ElementConnectivity<
        Self::GeometryDim,
        Self::ReferenceDim,
        NodalDim = Self::NodalDim,
    >;
}

} // verus!
