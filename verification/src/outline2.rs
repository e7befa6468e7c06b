//! The 2D outline engine.
//!
//! `outline_2d` turns a flat shape and a density into the flat vertex
//! sequence tracing its boundary.  The result is pinned exactly, point
//! by point, by [`spec_outline2`], as a function of the shape, the
//! density and the sampled rotation step.

use vstd::prelude::*;

use crate::arc::{arc_points, arc_seq, quarter_step, Rotation};
use crate::scalar::{div32, negate32, neg_bits, quot_bits, BITS_TWO};
use crate::shapes::{shape2_wf, Point2, Shape2d, Vertex2};

verus! {

/// A run of points with no break among them.
pub open spec fn points_of2(ps: Seq<Point2>) -> Seq<Vertex2> {
    ps.map_values(|p: Point2| Vertex2::Point(p))
}

/// One edge of a polygon: its two endpoints, then a lift of the pen.
pub open spec fn edge_group2(ps: Seq<Point2>, l: (usize, usize)) -> Seq<Vertex2> {
    seq![
        Vertex2::Point(ps[l.0 as int]),
        Vertex2::Point(ps[l.1 as int]),
        Vertex2::Break,
    ]
}

/// Every edge of the list in order, each as its own broken group.
pub open spec fn edges_vertices2(ps: Seq<Point2>, ls: Seq<(usize, usize)>) -> Seq<Vertex2>
    decreases ls.len(),
{
    if ls.len() == 0 {
        Seq::empty()
    } else {
        edges_vertices2(ps, ls.drop_last()) + edge_group2(ps, ls.last())
    }
}

/// Seed of the full and half circle samples: the radius along negative x.
pub open spec fn side_seed(radius: u32) -> Point2 {
    Point2 { x: neg_bits(radius), y: 0 }
}

/// The five corners of the rectangle loop, ending where it began.
pub open spec fn rectangle_loop(size: Point2) -> Seq<Point2> {
    let ax = quot_bits(size.x, BITS_TWO);
    let ay = quot_bits(size.y, BITS_TWO);
    seq![
        Point2 { x: ax, y: ay },
        Point2 { x: ax, y: neg_bits(ay) },
        Point2 { x: neg_bits(ax), y: neg_bits(ay) },
        Point2 { x: neg_bits(ax), y: ay },
        Point2 { x: ax, y: ay },
    ]
}

/// What the 2D engine returns: the exact vertex sequence for each shape,
/// as a function of the shape, the density and the rotation step.
pub open spec fn spec_outline2(s: Shape2d, d: nat, rot: Rotation) -> Seq<Vertex2> {
    match s {
        Shape2d::Disc(c) => points_of2(arc_seq(rot, side_seed(c.radius), 4 * d + 1)),
        Shape2d::HalfDisc(c) => points_of2(
            arc_seq(rot, Point2 { x: c.radius, y: 0 }, 2 * d + 1),
        ),
        Shape2d::QuarterDisc(c) => points_of2(
            arc_seq(rot, Point2 { x: 0, y: c.radius }, d + 1),
        ),
        Shape2d::Rectangle(r) => points_of2(rectangle_loop(r.size)),
        Shape2d::Triangle(t) => points_of2(seq![t.a, t.b, t.c, t.a]),
        Shape2d::Polygon(p) => edges_vertices2(p.points@, p.lines@),
    }
}

/// The arc lengths this shape asks for fit in a machine word.
pub open spec fn arc2_fits(s: Shape2d, d: nat) -> bool {
    match s {
        Shape2d::Disc(_) => 4 * d + 1 <= usize::MAX,
        Shape2d::HalfDisc(_) => 2 * d + 1 <= usize::MAX,
        Shape2d::QuarterDisc(_) => d + 1 <= usize::MAX,
        _ => true,
    }
}

/// Wraps each point of a run as a vertex.
pub fn vertices_of_points2(ps: Vec<Point2>) -> (v: Vec<Vertex2>)
    ensures
        v@ == points_of2(ps@),
{
    let mut v: Vec<Vertex2> = Vec::new();
    let mut i: usize = 0;
    while i < ps.len()
        invariant
            0 <= i <= ps@.len(),
            v@.len() == i as nat,
            forall|j: int| 0 <= j < i ==> v@[j] == Vertex2::Point(ps@[j]),
        decreases ps@.len() - i,
    {
        v.push(Vertex2::Point(ps[i]));
        i = i + 1;
    }
    assert(v@ =~= points_of2(ps@));
    v
}

/// Emits every edge of the list as its own broken two-point group.
fn edge_vertices2(points: &Vec<Point2>, lines: &Vec<(usize, usize)>) -> (v: Vec<Vertex2>)
    requires
        crate::shapes::edges_wf(points@.len(), lines@),
    ensures
        v@ == edges_vertices2(points@, lines@),
{
    let mut v: Vec<Vertex2> = Vec::new();
    let mut i: usize = 0;
    while i < lines.len()
        invariant
            0 <= i <= lines@.len(),
            crate::shapes::edges_wf(points@.len(), lines@),
            v@ == edges_vertices2(points@, lines@.take(i as int)),
        decreases lines@.len() - i,
    {
        let (a, b) = lines[i];
        v.push(Vertex2::Point(points[a]));
        v.push(Vertex2::Point(points[b]));
        v.push(Vertex2::Break);
        proof {
            let pre = lines@.take(i as int);
            let post = lines@.take(i + 1);
            assert(post.drop_last() =~= pre);
            assert(post.last() == lines@[i as int]);
        }
        i = i + 1;
    }
    proof {
        assert(lines@.take(lines@.len() as int) =~= lines@);
    }
    v
}

/// Traces the outline of a flat shape with the given rotation step; the
/// result is exactly [`spec_outline2`].
pub fn outline_2d_with_step(shape: &Shape2d, density: usize, rot: Rotation) -> (v: Vec<Vertex2>)
    requires
        density >= 1,
        shape2_wf(*shape),
        arc2_fits(*shape, density as nat),
    ensures
        v@ == spec_outline2(*shape, density as nat, rot),
{
    match shape {
        Shape2d::Disc(c) => {
            let seed = Point2 { x: negate32(c.radius), y: 0 };
            vertices_of_points2(arc_points(rot, seed, 4 * density + 1))
        },
        Shape2d::HalfDisc(c) => {
            let seed = Point2 { x: c.radius, y: 0 };
            vertices_of_points2(arc_points(rot, seed, 2 * density + 1))
        },
        Shape2d::QuarterDisc(c) => {
            let seed = Point2 { x: 0, y: c.radius };
            vertices_of_points2(arc_points(rot, seed, density + 1))
        },
        Shape2d::Rectangle(r) => {
            let ax = div32(r.size.x, BITS_TWO);
            let ay = div32(r.size.y, BITS_TWO);
            let nx = negate32(ax);
            let ny = negate32(ay);
            let mut v: Vec<Vertex2> = Vec::new();
            v.push(Vertex2::Point(Point2 { x: ax, y: ay }));
            v.push(Vertex2::Point(Point2 { x: ax, y: ny }));
            v.push(Vertex2::Point(Point2 { x: nx, y: ny }));
            v.push(Vertex2::Point(Point2 { x: nx, y: ay }));
            v.push(Vertex2::Point(Point2 { x: ax, y: ay }));
            assert(v@ =~= points_of2(rectangle_loop(r.size)));
            v
        },
        Shape2d::Triangle(t) => {
            let mut v: Vec<Vertex2> = Vec::new();
            v.push(Vertex2::Point(t.a));
            v.push(Vertex2::Point(t.b));
            v.push(Vertex2::Point(t.c));
            v.push(Vertex2::Point(t.a));
            assert(v@ =~= points_of2(seq![t.a, t.b, t.c, t.a]));
            v
        },
        Shape2d::Polygon(p) => edge_vertices2(&p.points, &p.lines),
    }
}

/// The flat shape's outline mentions no circular arc.
pub open spec fn step_free2(s: Shape2d) -> bool {
    match s {
        Shape2d::Rectangle(_) => true,
        Shape2d::Triangle(_) => true,
        Shape2d::Polygon(_) => true,
        _ => false,
    }
}

/// A flat outline without arcs does not depend on the rotation step.
pub proof fn lemma_step_free2(s: Shape2d, d: nat, r1: Rotation, r2: Rotation)
    requires
        step_free2(s),
    ensures
        spec_outline2(s, d, r1) == spec_outline2(s, d, r2),
{
}

/// No element of the outline is a break.
pub open spec fn no_breaks2(s: Seq<Vertex2>) -> bool {
    forall|i: int| 0 <= i < s.len() ==> !((#[trigger] s[i]) is Break)
}

/// A full circle at density `d` has exactly `4·d + 1` points and no
/// break.
pub proof fn lemma_disc_count(c: crate::shapes::Disc, d: nat, rot: Rotation)
    ensures
        spec_outline2(Shape2d::Disc(c), d, rot).len() == 4 * d + 1,
        no_breaks2(spec_outline2(Shape2d::Disc(c), d, rot)),
{
}

/// A half circle at density `d` has exactly `2·d + 1` points and no
/// break.
pub proof fn lemma_half_disc_count(c: crate::shapes::HalfDisc, d: nat, rot: Rotation)
    ensures
        spec_outline2(Shape2d::HalfDisc(c), d, rot).len() == 2 * d + 1,
        no_breaks2(spec_outline2(Shape2d::HalfDisc(c), d, rot)),
{
}

/// A quarter circle at density `d` has exactly `d + 1` points and no
/// break.
pub proof fn lemma_quarter_disc_count(c: crate::shapes::QuarterDisc, d: nat, rot: Rotation)
    ensures
        spec_outline2(Shape2d::QuarterDisc(c), d, rot).len() == d + 1,
        no_breaks2(spec_outline2(Shape2d::QuarterDisc(c), d, rot)),
{
}

/// A rectangle outline is a single closed five-point loop: no break,
/// and the last point equals the first.
pub proof fn lemma_rectangle_closes(r: crate::shapes::Rectangle, d: nat, rot: Rotation)
    ensures
        spec_outline2(Shape2d::Rectangle(r), d, rot).len() == 5,
        no_breaks2(spec_outline2(Shape2d::Rectangle(r), d, rot)),
        spec_outline2(Shape2d::Rectangle(r), d, rot)[0] == spec_outline2(
            Shape2d::Rectangle(r),
            d,
            rot,
        )[4],
{
}

/// A triangle outline is a single closed four-point loop: no break, and
/// the last point equals the first.
pub proof fn lemma_triangle_closes(t: crate::shapes::Triangle, d: nat, rot: Rotation)
    ensures
        spec_outline2(Shape2d::Triangle(t), d, rot).len() == 4,
        no_breaks2(spec_outline2(Shape2d::Triangle(t), d, rot)),
        spec_outline2(Shape2d::Triangle(t), d, rot)[0] == spec_outline2(
            Shape2d::Triangle(t),
            d,
            rot,
        )[3],
{
}

/// Edge coverage of the polygon outline: with `n` edges the outline has
/// exactly `3·n` elements — for the `i`-th edge its two endpoints in
/// order, then one break — and breaks stand nowhere else.
pub proof fn lemma_polygon_edges(ps: Seq<Point2>, ls: Seq<(usize, usize)>)
    ensures
        edges_vertices2(ps, ls).len() == 3 * ls.len(),
        forall|i: int|
            0 <= i < ls.len() ==> edges_vertices2(ps, ls)[3 * i] == Vertex2::Point(
                ps[(#[trigger] ls[i]).0 as int],
            ) && edges_vertices2(ps, ls)[3 * i + 1] == Vertex2::Point(ps[ls[i].1 as int])
                && edges_vertices2(ps, ls)[3 * i + 2] == Vertex2::Break,
        forall|j: int|
            0 <= j < 3 * ls.len() ==> ((#[trigger] edges_vertices2(ps, ls)[j]) is Break <==> j % 3
                == 2),
    decreases ls.len(),
{
    if ls.len() == 0 {
    } else {
        let n = ls.len() as int;
        let prefix = ls.drop_last();
        lemma_polygon_edges(ps, prefix);
        assert(edges_vertices2(ps, ls) == edges_vertices2(ps, prefix) + edge_group2(
            ps,
            ls.last(),
        ));
        assert forall|i: int| 0 <= i < n implies edges_vertices2(ps, ls)[3 * i] == Vertex2::Point(
            ps[(#[trigger] ls[i]).0 as int],
        ) && edges_vertices2(ps, ls)[3 * i + 1] == Vertex2::Point(ps[ls[i].1 as int])
            && edges_vertices2(ps, ls)[3 * i + 2] == Vertex2::Break by {
            if i < n - 1 {
                assert(prefix[i] == ls[i]);
            } else {
                assert(ls.last() == ls[i]);
            }
        }
        assert forall|j: int| 0 <= j < 3 * n implies ((#[trigger] edges_vertices2(ps, ls)[j])
            is Break <==> j % 3 == 2) by {
            if j >= 3 * (n - 1) {
                assert(edges_vertices2(ps, ls)[j] == edge_group2(ps, ls.last())[j - 3 * (n - 1)]);
            }
        }
    }
}

/// Traces the outline of a flat shape at the given density.  The rotation
/// step is sampled from the outside math crate's trigonometry, so for
/// shapes with circular arcs the result is pinned as a function of that
/// sample; a shape without arcs reads no step, and its outline is
/// pinned outright.
pub fn outline_2d(shape: &Shape2d, density: usize) -> (v: Vec<Vertex2>)
    requires
        density >= 1,
        shape2_wf(*shape),
        arc2_fits(*shape, density as nat),
    ensures
        exists|rot: Rotation| v@ == spec_outline2(*shape, density as nat, rot),
        step_free2(*shape) ==> forall|rot: Rotation|
            v@ == #[trigger] spec_outline2(*shape, density as nat, rot),
{
    let rot = quarter_step(density);
    let v = outline_2d_with_step(shape, density, rot);
    proof {
        if step_free2(*shape) {
            assert forall|rot2: Rotation|
                v@ == #[trigger] spec_outline2(*shape, density as nat, rot2) by {
                lemma_step_free2(*shape, density as nat, rot, rot2);
            }
        }
    }
    v
}

} // verus!
