//! Line segments and polygons on the integer lattice.

use crate::coordinates::LatticePoint;
use vstd::arithmetic::div_mod::{lemma_mod_self_0, lemma_small_mod};
use vstd::prelude::*;

verus! {

/// The straight segment from `start` to `end`. The two may coincide.
#[derive(Clone, Copy, Debug, PartialEq, Eq)]
pub struct LineSegment<const N: usize> {
    pub start: LatticePoint<N>,
    pub end: LatticePoint<N>,
}

impl<const N: usize> LineSegment<N> {
    /// The segment from `start` to `end`.
    pub fn new(start: LatticePoint<N>, end: LatticePoint<N>) -> (segment: Self)
        ensures
            segment.start == start,
            segment.end == end,
    {
        LineSegment { start, end }
    }
}

/// A closed polygon, given by its vertices in order. Edge `i` runs from
/// vertex `i` to the vertex after it, and the last edge returns to vertex 0.
#[derive(Clone, Debug, PartialEq, Eq)]
pub struct Polygon<const N: usize> {
    vertices: Vec<LatticePoint<N>>,
}

impl<const N: usize> View for Polygon<N> {
    type V = Seq<LatticePoint<N>>;

    closed spec fn view(&self) -> Seq<LatticePoint<N>> {
        self.vertices@
    }
}

impl<const N: usize> Polygon<N> {
    /// Edge `i`: from vertex `i` to vertex `i + 1`, counted around the polygon.
    pub open spec fn edge(&self, i: int) -> LineSegment<N> {
        LineSegment { start: self@[i], end: self@[(i + 1) % (self@.len() as int)] }
    }

    /// The polygon with the given vertices, in the given order.
    pub fn new(vertices: Vec<LatticePoint<N>>) -> (polygon: Self)
        ensures
            polygon@ == vertices@,
    {
        Polygon { vertices }
    }

    /// The number of edges, which is the number of vertices.
    pub fn edge_count(&self) -> (count: usize)
        ensures
            count == self@.len(),
    {
        self.vertices.len()
    }

    /// A copy of edge `i`. The polygon has no edge for an `i` from
    /// `edge_count()` on, and to ask for one is a mistake of the caller.
    pub fn get_edge(&self, i: usize) -> (segment: LineSegment<N>)
        requires
            i < self@.len(),
        ensures
            segment == self.edge(i as int),
    {
        let n: usize = self.vertices.len();
        let next: usize = if i + 1 == n {
            0
        } else {
            i + 1
        };
        proof {
            if i + 1 == n {
                lemma_mod_self_0(n as int);
            } else {
                lemma_small_mod((i + 1) as nat, n as nat);
            }
        }
        LineSegment { start: self.vertices[i], end: self.vertices[next] }
    }
}

} // verus!
