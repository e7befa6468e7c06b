use cool_shapes::outline2::outline_2d;
use cool_shapes::shapes::{
    Disc, HalfDisc, Point2, Polygon, QuarterDisc, Rectangle, Shape2d, Triangle, Vertex2,
};

fn p2(x: f32, y: f32) -> Point2 {
    Point2 { x: x.to_bits(), y: y.to_bits() }
}

fn decode2(w: &Vertex2) -> Option<(f32, f32)> {
    match w {
        Vertex2::Point(p) => Some((f32::from_bits(p.x), f32::from_bits(p.y))),
        Vertex2::Break => None,
    }
}

fn close2(a: (f32, f32), b: (f32, f32)) -> bool {
    (a.0 - b.0).abs() < 1e-5 && (a.1 - b.1).abs() < 1e-5
}

#[test]
fn circle_density_one_traces_diamond() {
    let shape = Shape2d::Disc(Disc { radius: 1f32.to_bits() });
    let out = outline_2d(&shape, 1);
    assert_eq!(out.len(), 5);
    let pts: Vec<(f32, f32)> = out.iter().map(|w| decode2(w).unwrap()).collect();
    assert!(close2(pts[0], (-1.0, 0.0)));
    assert!(close2(pts[1], (0.0, -1.0)));
    assert!(close2(pts[2], (1.0, 0.0)));
    assert!(close2(pts[3], (0.0, 1.0)));
    assert!(close2(pts[4], (-1.0, 0.0)));
    // the full circle closes back to its start within float tolerance
    assert!(close2(pts[0], pts[4]));
}

#[test]
fn circle_point_count_formula() {
    for d in 1..6usize {
        let shape = Shape2d::Disc(Disc { radius: 2f32.to_bits() });
        let out = outline_2d(&shape, d);
        assert_eq!(out.len(), 4 * d + 1);
        assert!(out.iter().all(|w| decode2(w).is_some()));
    }
}

#[test]
fn half_circle_count_and_ends() {
    let shape = Shape2d::HalfDisc(HalfDisc { radius: 2f32.to_bits() });
    let out = outline_2d(&shape, 3);
    assert_eq!(out.len(), 7);
    let pts: Vec<(f32, f32)> = out.iter().map(|w| decode2(w).unwrap()).collect();
    assert!(close2(pts[0], (2.0, 0.0)));
    assert!(close2(pts[6], (-2.0, 0.0)));
    // the arc stays in the upper half plane
    for p in &pts {
        assert!(p.1 > -1e-5);
    }
}

#[test]
fn quarter_circle_count() {
    let shape = Shape2d::QuarterDisc(QuarterDisc { radius: 1f32.to_bits() });
    let out = outline_2d(&shape, 2);
    assert_eq!(out.len(), 3);
    let pts: Vec<(f32, f32)> = out.iter().map(|w| decode2(w).unwrap()).collect();
    assert!(close2(pts[0], (0.0, 1.0)));
    assert!(close2(pts[2], (-1.0, 0.0)));
}

#[test]
fn rectangle_exact_loop() {
    let shape = Shape2d::Rectangle(Rectangle { size: p2(2.0, 2.0) });
    let out = outline_2d(&shape, 1);
    let pts: Vec<(f32, f32)> = out.iter().map(|w| decode2(w).unwrap()).collect();
    assert_eq!(
        pts,
        vec![(1.0, 1.0), (1.0, -1.0), (-1.0, -1.0), (-1.0, 1.0), (1.0, 1.0)]
    );
}

#[test]
fn rectangle_halves_its_size() {
    let shape = Shape2d::Rectangle(Rectangle { size: p2(3.0, 5.0) });
    let out = outline_2d(&shape, 1);
    let pts: Vec<(f32, f32)> = out.iter().map(|w| decode2(w).unwrap()).collect();
    assert_eq!(pts[0], (1.5, 2.5));
    assert_eq!(pts[2], (-1.5, -2.5));
}

#[test]
fn triangle_closed_loop() {
    let a = p2(0.0, 0.0);
    let b = p2(3.0, 0.0);
    let c = p2(0.0, 4.0);
    let shape = Shape2d::Triangle(Triangle { a, b, c });
    let out = outline_2d(&shape, 1);
    assert_eq!(out.len(), 4);
    assert_eq!(out[0], Vertex2::Point(a));
    assert_eq!(out[1], Vertex2::Point(b));
    assert_eq!(out[2], Vertex2::Point(c));
    assert_eq!(out[3], Vertex2::Point(a));
}

#[test]
fn polygon_two_edges() {
    let shape = Shape2d::Polygon(Polygon {
        points: vec![p2(0.0, 0.0), p2(1.0, 0.0), p2(0.0, 1.0)],
        lines: vec![(0, 1), (0, 2)],
        tris: vec![],
    });
    let out = outline_2d(&shape, 1);
    assert_eq!(out.len(), 6);
    assert_eq!(out[0], Vertex2::Point(p2(0.0, 0.0)));
    assert_eq!(out[1], Vertex2::Point(p2(1.0, 0.0)));
    assert_eq!(out[2], Vertex2::Break);
    assert_eq!(out[3], Vertex2::Point(p2(0.0, 0.0)));
    assert_eq!(out[4], Vertex2::Point(p2(0.0, 1.0)));
    assert_eq!(out[5], Vertex2::Break);
}

#[test]
fn polygon_edge_coverage_counts() {
    let points = vec![p2(0.0, 0.0), p2(2.0, 0.0), p2(2.0, 2.0), p2(0.0, 2.0)];
    let lines = vec![(0, 1), (1, 2), (2, 3), (3, 0)];
    let shape = Shape2d::Polygon(Polygon { points: points.clone(), lines: lines.clone(), tris: vec![] });
    let out = outline_2d(&shape, 1);
    assert_eq!(out.len(), 3 * lines.len());
    let breaks = out.iter().filter(|w| matches!(w, Vertex2::Break)).count();
    assert_eq!(breaks, lines.len());
    for (i, (a, b)) in lines.iter().enumerate() {
        assert_eq!(out[3 * i], Vertex2::Point(points[*a]));
        assert_eq!(out[3 * i + 1], Vertex2::Point(points[*b]));
        assert_eq!(out[3 * i + 2], Vertex2::Break);
    }
}

#[test]
fn polygon_empty_edge_list() {
    let shape = Shape2d::Polygon(Polygon { points: vec![p2(1.0, 1.0)], lines: vec![], tris: vec![] });
    let out = outline_2d(&shape, 1);
    assert_eq!(out.len(), 0);
}

#[test]
fn flat_outline_deterministic() {
    let shapes = vec![
        Shape2d::Disc(Disc { radius: 1.25f32.to_bits() }),
        Shape2d::HalfDisc(HalfDisc { radius: 0.5f32.to_bits() }),
        Shape2d::Rectangle(Rectangle { size: p2(1.0, 2.0) }),
    ];
    for shape in &shapes {
        let first = outline_2d(shape, 4);
        let second = outline_2d(shape, 4);
        assert_eq!(first, second);
    }
}

#[test]
fn zero_radius_is_degenerate_not_an_error() {
    let shape = Shape2d::Disc(Disc { radius: 0f32.to_bits() });
    let out = outline_2d(&shape, 2);
    assert_eq!(out.len(), 9);
    for w in &out {
        let (x, y) = decode2(w).unwrap();
        assert_eq!(x, 0.0);
        assert_eq!(y, 0.0);
    }
}
