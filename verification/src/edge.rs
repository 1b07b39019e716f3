//! The straight edge in the plane.

use crate::coordinates::{quotients, reals, squared_magnitude};
use crate::coordinates::{GeometryCoordinates, ReferenceCoordinates};
use crate::dimension::FiniteElementAllocator;
use crate::element::{
    ElementConnectivity, FiniteElement, GeometricFiniteElementSpace, ReferenceFiniteElement,
};
use crate::geometry::LineSegment;
use nalgebra::{DefaultAllocator, U1, U2};
use vstd::prelude::*;

verus! {

/// The point `p + t * (q - p)`, component by component.
pub open spec fn interpolate(p: Seq<int>, q: Seq<int>, t: real) -> Seq<real> {
    Seq::new(p.len(), |i: int| p[i] as real + t * ((q[i] - p[i]) as real))
}

/// The numerators of `interpolate(p, q, n / d)` over the denominator `d`:
/// `(d - n) * p + n * q`, component by component.
pub open spec fn interpolate_numerators(p: Seq<int>, q: Seq<int>, n: int, d: int) -> Seq<int> {
    Seq::new(p.len(), |i: int| (d - n) * p[i] + n * q[i])
}

/// The mix `lambda * a + (1 - lambda) * b`, component by component.
pub open spec fn affine_combination(lambda: real, a: Seq<real>, b: Seq<real>) -> Seq<real> {
    Seq::new(a.len(), |i: int| lambda * a[i] + (1real - lambda) * b[i])
}

/// A straight edge in the plane: the segment from `start` to `end`,
/// parameterised over the reference domain `[0, 1]`. Reference coordinate 0
/// is `start` and 1 is `end`; outside `[0, 1]` the map goes on along the line
/// through the two.
#[derive(Clone, Copy, Debug, PartialEq, Eq)]
pub struct Edge2dElement {
    segment: LineSegment<2>,
}

impl View for Edge2dElement {
    type V = LineSegment<2>;

    closed spec fn view(&self) -> LineSegment<2> {
        self.segment
    }
}

impl Edge2dElement {
    /// The edge that runs along `segment`. A segment of length zero gives an
    /// edge that maps every reference coordinate to its one point.
    pub fn from_segment(segment: LineSegment<2>) -> (element: Self)
        ensures
            element@ == segment,
    {
        Edge2dElement { segment }
    }

    /// The segment that the edge runs along.
    pub fn segment(&self) -> (segment: LineSegment<2>)
        ensures
            segment == self@,
    {
        self.segment
    }
}

impl ReferenceFiniteElement for Edge2dElement {
    type NodalDim = U1;
}

impl FiniteElement<U2, U1> for Edge2dElement {
    open spec fn spec_map(&self, reference_coordinate: Seq<real>) -> Seq<real> {
        interpolate(self@.start@, self@.end@, reference_coordinate[0])
    }

    fn map_reference_coords(&self, reference_coordinate: &ReferenceCoordinates<1>) -> (x:
        GeometryCoordinates<2>)
        ensures
            x.denom() == reference_coordinate.denom(),
            x.numer() == interpolate_numerators(
                self@.start@,
                self@.end@,
                reference_coordinate.numer()[0],
                reference_coordinate.denom(),
            ),
    {
        let numerators: [i32; 1] = reference_coordinate.numerators();
        let denominator: u32 = reference_coordinate.denominator();
        let n: i128 = numerators[0] as i128;
        let d: i128 = denominator as i128;
        let m: i128 = d - n;
        let px: i128 = self.segment.start.coords[0] as i128;
        let py: i128 = self.segment.start.coords[1] as i128;
        let qx: i128 = self.segment.end.coords[0] as i128;
        let qy: i128 = self.segment.end.coords[1] as i128;
        proof {
            lemma_product_bound(m as int, px as int);
            lemma_product_bound(m as int, py as int);
            lemma_product_bound(n as int, qx as int);
            lemma_product_bound(n as int, qy as int);
        }
        let x = GeometryCoordinates::new([m * px + n * qx, m * py + n * qy], denominator);
        proof {
            let p = self@.start@;
            let q = self@.end@;
            assert(x.numer() =~= interpolate_numerators(p, q, n as int, d as int));
            lemma_interpolate_quotients(p, q, n as int, d as int);
            assert(reference_coordinate@[0] == n as real / d as real);
        }
        x
    }
}

/// A product of a factor of at most 33 bits and one of at most 64 bits has
/// at most 97 bits.
proof fn lemma_product_bound(a: int, b: int)
    requires
        -0x2_0000_0000 <= a <= 0x2_0000_0000,
        -0x8000_0000_0000_0000 <= b <= 0x8000_0000_0000_0000,
    ensures
        -0x1_0000_0000_0000_0000_0000_0000 <= a * b <= 0x1_0000_0000_0000_0000_0000_0000,
{
    assert(-0x1_0000_0000_0000_0000_0000_0000 <= a * b <= 0x1_0000_0000_0000_0000_0000_0000)
        by (nonlinear_arith)
        requires
            -0x2_0000_0000 <= a <= 0x2_0000_0000,
            -0x8000_0000_0000_0000 <= b <= 0x8000_0000_0000_0000,
    ;
}

/// Over a positive denominator `d`, the numerators `(d - n) * p + n * q`
/// stand for the point `p + (n / d) * (q - p)`.
pub proof fn lemma_interpolate_quotients(p: Seq<int>, q: Seq<int>, n: int, d: int)
    requires
        d > 0,
    ensures
        quotients(interpolate_numerators(p, q, n, d), d) == interpolate(
            p,
            q,
            n as real / d as real,
        ),
{
    let lhs = quotients(interpolate_numerators(p, q, n, d), d);
    let rhs = interpolate(p, q, n as real / d as real);
    assert forall|i: int| 0 <= i < p.len() implies lhs[i] == rhs[i] by {
        let a = p[i];
        let b = q[i];
        assert(((d - n) * a + n * b) as real / d as real == a as real + (n as real / d as real)
            * ((b - a) as real)) by (nonlinear_arith)
            requires
                d > 0,
        ;
    }
    assert(lhs =~= rhs);
}

/// Multiplication of reals distributes over addition.
proof fn lemma_real_distributes(x: real, y: real, z: real)
    by (nonlinear_arith)
    ensures
        z * (x + y) == z * x + z * y,
        (x + y) * z == x * z + y * z,
{
}

/// Multiplication of reals is associative.
proof fn lemma_real_associates(x: real, y: real, z: real)
    by (nonlinear_arith)
    ensures
        (x * y) * z == x * (y * z),
{
}

/// The line `t -> a + t * c` takes a mix of `t0` and `t1` to the same mix of
/// their images.
proof fn lemma_affine_identity(a: real, c: real, t0: real, t1: real, lambda: real)
    ensures
        a + (lambda * t0 + (1real - lambda) * t1) * c == lambda * (a + t0 * c) + (1real - lambda)
            * (a + t1 * c),
{
    let mu = 1real - lambda;
    lemma_real_distributes(lambda * t0, mu * t1, c);
    lemma_real_associates(lambda, t0, c);
    lemma_real_associates(mu, t1, c);
    lemma_real_distributes(a, t0 * c, lambda);
    lemma_real_distributes(a, t1 * c, mu);
    assert(lambda * a + mu * a == a) by (nonlinear_arith)
        requires
            lambda + mu == 1real,
    ;
}

/// The map of an edge is affine: it takes the mix
/// `lambda * t0 + (1 - lambda) * t1` of two reference coordinates to the same
/// mix of their images. This holds for every real `lambda`, so for those in
/// `[0, 1]`.
pub proof fn lemma_map_affine(element: Edge2dElement, t0: real, t1: real, lambda: real)
    ensures
        element.spec_map(seq![lambda * t0 + (1real - lambda) * t1]) == affine_combination(
            lambda,
            element.spec_map(seq![t0]),
            element.spec_map(seq![t1]),
        ),
{
    let p = element@.start@;
    let q = element@.end@;
    let lhs = element.spec_map(seq![lambda * t0 + (1real - lambda) * t1]);
    let rhs = affine_combination(lambda, element.spec_map(seq![t0]), element.spec_map(seq![t1]));
    assert forall|i: int| 0 <= i < p.len() implies lhs[i] == rhs[i] by {
        lemma_affine_identity(p[i] as real, (q[i] - p[i]) as real, t0, t1, lambda);
    }
    assert(lhs =~= rhs);
}

/// At the two ends of the reference domain the map gives the two ends of the
/// segment: `start` at 0 and `end` at 1.
pub proof fn lemma_map_endpoints(element: Edge2dElement)
    ensures
        element.spec_map(seq![0real]) == reals(element@.start@),
        element.spec_map(seq![1real]) == reals(element@.end@),
{
    let p = element@.start@;
    let q = element@.end@;
    assert forall|i: int| 0 <= i < p.len() implies p[i] as real + 0real * ((q[i] - p[i]) as real)
        == p[i] as real by {
        assert(0real * ((q[i] - p[i]) as real) == 0real) by (nonlinear_arith);
    }
    assert forall|i: int| 0 <= i < p.len() implies p[i] as real + 1real * ((q[i] - p[i]) as real)
        == q[i] as real by {
        assert(1real * ((q[i] - p[i]) as real) == (q[i] - p[i]) as real) by (nonlinear_arith);
    }
    assert(element.spec_map(seq![0real]) =~= reals(p));
    assert(element.spec_map(seq![1real]) =~= reals(q));
}

/// An edge along a segment of length zero maps every reference coordinate
/// to the one point of the segment, at the distance of that point from the
/// origin.
pub proof fn lemma_map_degenerate(element: Edge2dElement, t: real)
    requires
        element@.start == element@.end,
    ensures
        element.spec_map(seq![t]) == reals(element@.start@),
        squared_magnitude(element.spec_map(seq![t])) == squared_magnitude(
            reals(element@.start@),
        ),
{
    let p = element@.start@;
    let q = element@.end@;
    assert forall|i: int| 0 <= i < p.len() implies p[i] as real + t * ((q[i] - p[i]) as real)
        == p[i] as real by {
        assert(q[i] - p[i] == 0);
        assert(t * (0 as real) == 0real) by (nonlinear_arith);
    }
    assert(element.spec_map(seq![t]) =~= reals(p));
}

/// The point at `reference_coordinate` of an edge on the surface of `Space`,
/// whatever the dimensions of the space are. The bounds name every
/// capability that the call rests on, and leave none to be inferred from
/// another.
pub fn problematic_function<Space>(
    material_surface_element: &Edge2dElement,
    reference_coordinate: &ReferenceCoordinates<1>,
) -> (point: GeometryCoordinates<2>) where
    Space: GeometricFiniteElementSpace,
    Space::Connectivity: ElementConnectivity<
        Space::GeometryDim,
        Space::ReferenceDim,
        NodalDim = Space::NodalDim,
    >,
    DefaultAllocator: FiniteElementAllocator<Space::GeometryDim, Space::NodalDim>,
    DefaultAllocator: FiniteElementAllocator<U2, U1>,
    ensures
        point@ == material_surface_element.spec_map(reference_coordinate@),
        point.denom() == reference_coordinate.denom(),
        point.numer() == interpolate_numerators(
            material_surface_element@.start@,
            material_surface_element@.end@,
            reference_coordinate.numer()[0],
            reference_coordinate.denom(),
        ),
{
    material_surface_element.map_reference_coords(reference_coordinate)
}

} // verus!
