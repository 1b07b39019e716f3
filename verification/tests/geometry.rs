use fespace::{LatticePoint, LineSegment, Polygon};

fn unit_square() -> Polygon<2> {
    Polygon::new(vec![
        LatticePoint::new([0, 0]),
        LatticePoint::new([1, 0]),
        LatticePoint::new([1, 1]),
        LatticePoint::new([0, 1]),
    ])
}

#[test]
fn lattice_point_keeps_its_coordinates() {
    let p = LatticePoint::new([3, -4, 5]);
    assert_eq!(p.coords, [3, -4, 5]);
}

#[test]
fn line_segment_keeps_its_endpoints_in_order() {
    let p = LatticePoint::new([1, 2]);
    let q = LatticePoint::new([-7, 9]);
    let segment = LineSegment::new(p, q);
    assert_eq!(segment.start, p);
    assert_eq!(segment.end, q);
    assert_ne!(segment, LineSegment::new(q, p));
}

#[test]
fn polygon_has_one_edge_per_vertex() {
    assert_eq!(unit_square().edge_count(), 4);
    assert_eq!(Polygon::<2>::new(Vec::new()).edge_count(), 0);
}

#[test]
fn unit_square_edge_zero_runs_along_the_bottom() {
    let edge = unit_square().get_edge(0);
    assert_eq!(edge.start.coords, [0, 0]);
    assert_eq!(edge.end.coords, [1, 0]);
}

#[test]
fn every_edge_joins_a_vertex_to_the_next() {
    let vertices = [
        LatticePoint::new([0, 0]),
        LatticePoint::new([1, 0]),
        LatticePoint::new([1, 1]),
        LatticePoint::new([0, 1]),
    ];
    let square = unit_square();
    for i in 0..square.edge_count() {
        let edge = square.get_edge(i);
        assert_eq!(edge.start, vertices[i]);
        assert_eq!(edge.end, vertices[(i + 1) % 4]);
    }
}

#[test]
fn last_edge_returns_to_the_first_vertex() {
    let edge = unit_square().get_edge(3);
    assert_eq!(edge.start.coords, [0, 1]);
    assert_eq!(edge.end.coords, [0, 0]);
}

#[test]
fn single_vertex_polygon_has_a_degenerate_edge() {
    let polygon = Polygon::new(vec![LatticePoint::new([5, 6, 7])]);
    assert_eq!(polygon.edge_count(), 1);
    let edge = polygon.get_edge(0);
    assert_eq!(edge.start.coords, [5, 6, 7]);
    assert_eq!(edge.end.coords, [5, 6, 7]);
}

#[test]
fn an_edge_is_a_copy_that_outlives_the_polygon() {
    let edge = {
        let triangle = Polygon::new(vec![
            LatticePoint::new([0, 0]),
            LatticePoint::new([4, 0]),
            LatticePoint::new([0, 3]),
        ]);
        triangle.get_edge(1)
    };
    assert_eq!(edge, LineSegment::new(LatticePoint::new([4, 0]), LatticePoint::new([0, 3])));
}
