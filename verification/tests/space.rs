use fespace::{
    problematic_function, DefaultAllocator, Dimension, Edge2dElement, ElementConnectivity,
    FiniteElement, FiniteElementAllocator, GeometricFiniteElementSpace, GeometryCoordinates,
    LatticePoint, LineSegment, ReferenceCoordinates, ReferenceFiniteElement, U1, U2, U3,
};

/// A space of the library's edges: geometry 2, reference 1, one node.
struct EdgeConnectivity;

impl ElementConnectivity<U2, U1> for EdgeConnectivity {
    type Element = Edge2dElement;
    type NodalDim = U1;
}

struct EdgeSpace;

impl GeometricFiniteElementSpace for EdgeSpace {
    type GeometryDim = U2;
    type ReferenceDim = U1;
    type NodalDim = U1;
    type Connectivity = EdgeConnectivity;
}

/// An edge with a node at each end: geometry 2, reference 1, two nodes.
struct TwoNodeEdge {
    start: [i64; 2],
    end: [i64; 2],
}

impl ReferenceFiniteElement for TwoNodeEdge {
    type NodalDim = U2;
}

impl FiniteElement<U2, U1> for TwoNodeEdge {
    fn map_reference_coords(&self, xi: &ReferenceCoordinates<1>) -> GeometryCoordinates<2> {
        let n = xi.numerators()[0] as i128;
        let d = xi.denominator() as i128;
        GeometryCoordinates::new(
            [
                (d - n) * self.start[0] as i128 + n * self.end[0] as i128,
                (d - n) * self.start[1] as i128 + n * self.end[1] as i128,
            ],
            xi.denominator(),
        )
    }
}

struct TwoNodeEdgeConnectivity;

impl ElementConnectivity<U2, U1> for TwoNodeEdgeConnectivity {
    type Element = TwoNodeEdge;
    type NodalDim = U2;
}

struct TwoNodeEdgeSpace;

impl GeometricFiniteElementSpace for TwoNodeEdgeSpace {
    type GeometryDim = U2;
    type ReferenceDim = U1;
    type NodalDim = U2;
    type Connectivity = TwoNodeEdgeConnectivity;
}

/// The triangle with corners (0, 0), (a, 0), (0, b): geometry 2, reference 2,
/// three nodes. The reference dimension is left to default to the geometry's.
struct RightTriangle {
    a: i64,
    b: i64,
}

impl ReferenceFiniteElement for RightTriangle {
    type NodalDim = U3;
}

impl FiniteElement<U2> for RightTriangle {
    fn map_reference_coords(&self, xi: &ReferenceCoordinates<2>) -> GeometryCoordinates<2> {
        let [r, s] = xi.numerators();
        GeometryCoordinates::new(
            [r as i128 * self.a as i128, s as i128 * self.b as i128],
            xi.denominator(),
        )
    }
}

struct TriangleConnectivity;

impl ElementConnectivity<U2> for TriangleConnectivity {
    type Element = RightTriangle;
    type NodalDim = U3;
}

struct TriangleSpace;

impl GeometricFiniteElementSpace for TriangleSpace {
    type GeometryDim = U2;
    type ReferenceDim = U2;
    type NodalDim = U3;
    type Connectivity = TriangleConnectivity;
}

type ElementOf<Space> = <<Space as GeometricFiniteElementSpace>::Connectivity as ElementConnectivity<
    <Space as GeometricFiniteElementSpace>::GeometryDim,
    <Space as GeometricFiniteElementSpace>::ReferenceDim,
>>::Element;

type ReferenceOf<Space> =
    <<Space as GeometricFiniteElementSpace>::ReferenceDim as Dimension>::Reference;

type GeometryOf<Space> =
    <<Space as GeometricFiniteElementSpace>::GeometryDim as Dimension>::Geometry;

/// Written once against the contracts, for whatever the space's dimensions are.
fn evaluate<Space>(element: &ElementOf<Space>, xi: &ReferenceOf<Space>) -> GeometryOf<Space>
where
    Space: GeometricFiniteElementSpace,
    Space::Connectivity:
        ElementConnectivity<Space::GeometryDim, Space::ReferenceDim, NodalDim = Space::NodalDim>,
    DefaultAllocator: FiniteElementAllocator<Space::GeometryDim, Space::NodalDim>,
{
    element.map_reference_coords(xi)
}

fn storage_exists<GeometryDim, NodalDim>() -> bool
where
    GeometryDim: Dimension,
    NodalDim: Dimension,
    DefaultAllocator: FiniteElementAllocator<GeometryDim, NodalDim>,
{
    true
}

fn sample_edge() -> Edge2dElement {
    Edge2dElement::from_segment(LineSegment::new(
        LatticePoint::new([0, 0]),
        LatticePoint::new([4, 2]),
    ))
}

#[test]
fn one_algorithm_serves_spaces_of_different_dimensions() {
    let xi = ReferenceCoordinates::new([1], 4);
    let on_edge = evaluate::<EdgeSpace>(&sample_edge(), &xi);
    assert_eq!(on_edge.numerators(), [4, 2]);
    assert_eq!(on_edge.denominator(), 4);

    let two_node = TwoNodeEdge { start: [0, 0], end: [4, 2] };
    let on_two_node = evaluate::<TwoNodeEdgeSpace>(&two_node, &xi);
    assert_eq!(on_two_node, on_edge);

    let triangle = RightTriangle { a: 3, b: 5 };
    let in_triangle = evaluate::<TriangleSpace>(&triangle, &ReferenceCoordinates::new([1, 2], 4));
    assert_eq!(in_triangle.numerators(), [3, 10]);
    assert_eq!(in_triangle.denominator(), 4);
}

#[test]
fn surface_point_is_the_same_for_every_space() {
    let element = sample_edge();
    let xi = ReferenceCoordinates::new([3], 4);
    let for_edges = problematic_function::<EdgeSpace>(&element, &xi);
    let for_two_node_edges = problematic_function::<TwoNodeEdgeSpace>(&element, &xi);
    let for_triangles = problematic_function::<TriangleSpace>(&element, &xi);
    assert_eq!(for_edges.numerators(), [12, 6]);
    assert_eq!(for_edges.denominator(), 4);
    assert_eq!(for_two_node_edges, for_edges);
    assert_eq!(for_triangles, for_edges);
}

#[test]
fn surface_point_of_a_degenerate_edge_is_its_point() {
    let point = LatticePoint::new([3, 4]);
    let element = Edge2dElement::from_segment(LineSegment::new(point, point));
    let x = problematic_function::<TriangleSpace>(&element, &ReferenceCoordinates::new([5], 7));
    assert_eq!(x.numerators(), [21, 28]);
    assert_eq!(x.denominator(), 7);
}

#[test]
fn storage_exists_for_every_pair_of_dimensions() {
    assert!(storage_exists::<U2, U1>());
    assert!(storage_exists::<U1, U3>());
    assert!(storage_exists::<U3, U2>());
}
