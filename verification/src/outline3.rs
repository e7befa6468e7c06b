//! The 3D outline engine.
//!
//! Every variant's output is a chain of groups — point runs, loops,
//! spokes — with one break element between consecutive groups.  A 2D
//! point enters space by an axis embedding (a zero is inserted in one
//! coordinate), optionally shifted by an offset; the offset arithmetic
//! is the same named binary32 lane operation, in the same operand
//! order, that the outside math crate's vector operators perform.
//! Lanes that an axis-vector scaling would pin to zero are written as
//! plain `+0`.

use vstd::prelude::*;

use crate::arc::{arc_points, arc_seq, Rotation};
use crate::outline2::{
    arc2_fits, lemma_step_free2, outline_2d_with_step, points_of2, side_seed, spec_outline2,
    step_free2, vertices_of_points2,
};
use crate::scalar::{
    add32, diff_bits, div32, mul32, neg_bits, negate32, prod_bits, quot_bits, sub32, sum_bits,
    BITS_HALF, BITS_TWO,
};
use crate::heightfield::{heightfield_vertices, spec_heightfield};
use crate::shapes::{
    shape2_wf, shape_wf, Capsule, Cone, Cuboid, Cylinder, Extruded, HalfSphere, Point2, Point3,
    Pyramid, Shape, Shape2d, Sphere, Tetrahedron, Vertex2, Vertex3,
};

verus! {

/// The three axis embeddings of the plane into space.
#[derive(Clone, Copy, Debug)]
pub enum Axis3 {
    OnX,
    OnY,
    OnZ,
}

/// Lifts a planar point by inserting a zero in the named coordinate.
pub open spec fn embed(a: Axis3, p: Point2) -> Point3 {
    match a {
        Axis3::OnX => Point3 { x: 0, y: p.x, z: p.y },
        Axis3::OnY => Point3 { x: p.x, y: 0, z: p.y },
        Axis3::OnZ => Point3 { x: p.x, y: p.y, z: 0 },
    }
}

/// Lane-wise binary32 addition of two points.
pub open spec fn add3(a: Point3, b: Point3) -> Point3 {
    Point3 { x: sum_bits(a.x, b.x), y: sum_bits(a.y, b.y), z: sum_bits(a.z, b.z) }
}

/// Lane-wise binary32 subtraction of two points.
pub open spec fn sub3(a: Point3, b: Point3) -> Point3 {
    Point3 { x: diff_bits(a.x, b.x), y: diff_bits(a.y, b.y), z: diff_bits(a.z, b.z) }
}

/// How a planar point is placed in space: an axis embedding, alone or
/// followed by adding or subtracting a fixed offset.
#[derive(Clone, Copy, Debug)]
pub enum Embed3 {
    Plain(Axis3),
    Plus(Axis3, Point3),
    Minus(Axis3, Point3),
}

/// The spatial position of a planar point under a placement.
pub open spec fn place(e: Embed3, p: Point2) -> Point3 {
    match e {
        Embed3::Plain(a) => embed(a, p),
        Embed3::Plus(a, off) => add3(embed(a, p), off),
        Embed3::Minus(a, off) => sub3(embed(a, p), off),
    }
}

/// A run of placed points with no break among them.
pub open spec fn placed_run(e: Embed3, ps: Seq<Point2>) -> Seq<Vertex3> {
    ps.map_values(|p: Point2| Vertex3::Point(place(e, p)))
}

/// A placed outline element: points are placed, breaks pass through.
pub open spec fn place_vertex(e: Embed3, w: Vertex2) -> Vertex3 {
    match w {
        Vertex2::Point(p) => Vertex3::Point(place(e, p)),
        Vertex2::Break => Vertex3::Break,
    }
}

/// A whole flat outline placed in space, breaks kept where they are.
pub open spec fn placed_vertices(e: Embed3, ws: Seq<Vertex2>) -> Seq<Vertex3> {
    ws.map_values(|w: Vertex2| place_vertex(e, w))
}

/// Lane-wise binary32 addition.
pub fn add_points(a: Point3, b: Point3) -> (r: Point3)
    ensures
        r == add3(a, b),
{
    Point3 { x: add32(a.x, b.x), y: add32(a.y, b.y), z: add32(a.z, b.z) }
}

/// Lane-wise binary32 subtraction.
pub fn sub_points(a: Point3, b: Point3) -> (r: Point3)
    ensures
        r == sub3(a, b),
{
    Point3 { x: sub32(a.x, b.x), y: sub32(a.y, b.y), z: sub32(a.z, b.z) }
}

/// Places one planar point in space.
pub fn place_point(e: Embed3, p: Point2) -> (r: Point3)
    ensures
        r == place(e, p),
{
    let lifted = match e {
        Embed3::Plain(a) | Embed3::Plus(a, _) | Embed3::Minus(a, _) => match a {
            Axis3::OnX => Point3 { x: 0, y: p.x, z: p.y },
            Axis3::OnY => Point3 { x: p.x, y: 0, z: p.y },
            Axis3::OnZ => Point3 { x: p.x, y: p.y, z: 0 },
        },
    };
    match e {
        Embed3::Plain(_) => lifted,
        Embed3::Plus(_, off) => add_points(lifted, off),
        Embed3::Minus(_, off) => sub_points(lifted, off),
    }
}

/// Appends a placed point run.
fn push_placed_points(v: &mut Vec<Vertex3>, e: Embed3, ps: &Vec<Point2>)
    ensures
        final(v)@ == old(v)@ + placed_run(e, ps@),
{
    let mut i: usize = 0;
    while i < ps.len()
        invariant
            0 <= i <= ps@.len(),
            v@ == old(v)@ + placed_run(e, ps@).take(i as int),
        decreases ps@.len() - i,
    {
        v.push(Vertex3::Point(place_point(e, ps[i])));
        proof {
            let run = placed_run(e, ps@);
            assert(run[i as int] == Vertex3::Point(place(e, ps@[i as int])));
            assert(v@ =~= old(v)@ + run.take(i + 1));
        }
        i = i + 1;
    }
    proof {
        assert(placed_run(e, ps@).take(ps@.len() as int) =~= placed_run(e, ps@));
    }
}

/// Appends a placed flat outline, keeping its breaks.
fn push_placed_vertices(v: &mut Vec<Vertex3>, e: Embed3, ws: &Vec<Vertex2>)
    ensures
        final(v)@ == old(v)@ + placed_vertices(e, ws@),
{
    let mut i: usize = 0;
    while i < ws.len()
        invariant
            0 <= i <= ws@.len(),
            v@ == old(v)@ + placed_vertices(e, ws@).take(i as int),
        decreases ws@.len() - i,
    {
        match ws[i] {
            Vertex2::Point(p) => v.push(Vertex3::Point(place_point(e, p))),
            Vertex2::Break => v.push(Vertex3::Break),
        }
        proof {
            let run = placed_vertices(e, ws@);
            assert(run[i as int] == place_vertex(e, ws@[i as int]));
            assert(v@ =~= old(v)@ + run.take(i + 1));
        }
        i = i + 1;
    }
    proof {
        assert(placed_vertices(e, ws@).take(ws@.len() as int) =~= placed_vertices(e, ws@));
    }
}

/// Where a spoke ends: at one fixed apex, or at the same planar point
/// under a second placement (a vertical spoke).
#[derive(Clone, Copy, Debug)]
pub enum SpokeTop {
    Apex(Point3),
    Placed(Embed3),
}

/// The far end of the spoke rising from planar point `p`.
pub open spec fn spoke_top_vertex(t: SpokeTop, p: Point2) -> Vertex3 {
    match t {
        SpokeTop::Apex(a) => Vertex3::Point(a),
        SpokeTop::Placed(e) => Vertex3::Point(place(e, p)),
    }
}

/// The middle element a spoke group keeps when its source element is a
/// break: a fixed apex is still a point, a placed top passes the break
/// through.
pub open spec fn spoke_break_top(t: SpokeTop) -> Vertex3 {
    match t {
        SpokeTop::Apex(a) => Vertex3::Point(a),
        SpokeTop::Placed(_) => Vertex3::Break,
    }
}

/// One spoke: its foot, its top, then a lift of the pen.
pub open spec fn spoke_group(eb: Embed3, t: SpokeTop, w: Vertex2) -> Seq<Vertex3> {
    match w {
        Vertex2::Point(p) => seq![
            Vertex3::Point(place(eb, p)),
            spoke_top_vertex(t, p),
            Vertex3::Break,
        ],
        Vertex2::Break => seq![Vertex3::Break, spoke_break_top(t), Vertex3::Break],
    }
}

/// One spoke group per source element, in order, each its own broken
/// segment (the last one included).
pub open spec fn spokes(eb: Embed3, t: SpokeTop, ws: Seq<Vertex2>) -> Seq<Vertex3>
    decreases ws.len(),
{
    if ws.len() == 0 {
        Seq::empty()
    } else {
        spokes(eb, t, ws.drop_last()) + spoke_group(eb, t, ws.last())
    }
}

/// Appends one spoke group per source element.
fn push_spokes(v: &mut Vec<Vertex3>, eb: Embed3, t: SpokeTop, ws: &Vec<Vertex2>)
    ensures
        final(v)@ == old(v)@ + spokes(eb, t, ws@),
{
    let mut i: usize = 0;
    while i < ws.len()
        invariant
            0 <= i <= ws@.len(),
            v@ == old(v)@ + spokes(eb, t, ws@.take(i as int)),
        decreases ws@.len() - i,
    {
        match ws[i] {
            Vertex2::Point(p) => {
                v.push(Vertex3::Point(place_point(eb, p)));
                match t {
                    SpokeTop::Apex(a) => v.push(Vertex3::Point(a)),
                    SpokeTop::Placed(et) => v.push(Vertex3::Point(place_point(et, p))),
                }
                v.push(Vertex3::Break);
            },
            Vertex2::Break => {
                v.push(Vertex3::Break);
                match t {
                    SpokeTop::Apex(a) => v.push(Vertex3::Point(a)),
                    SpokeTop::Placed(_) => v.push(Vertex3::Break),
                }
                v.push(Vertex3::Break);
            },
        }
        proof {
            let pre = ws@.take(i as int);
            let post = ws@.take(i + 1);
            assert(post.drop_last() =~= pre);
            assert(post.last() == ws@[i as int]);
            assert(v@ =~= old(v)@ + spokes(eb, t, post));
        }
        i = i + 1;
    }
    proof {
        assert(ws@.take(ws@.len() as int) =~= ws@);
    }
}

/// One 3D edge: its two endpoints, then a lift of the pen.
pub open spec fn edge_group3(ps: Seq<Point3>, l: (usize, usize)) -> Seq<Vertex3> {
    seq![
        Vertex3::Point(ps[l.0 as int]),
        Vertex3::Point(ps[l.1 as int]),
        Vertex3::Break,
    ]
}

/// Every edge of the list in order, each as its own broken group.
pub open spec fn edges_vertices3(ps: Seq<Point3>, ls: Seq<(usize, usize)>) -> Seq<Vertex3>
    decreases ls.len(),
{
    if ls.len() == 0 {
        Seq::empty()
    } else {
        edges_vertices3(ps, ls.drop_last()) + edge_group3(ps, ls.last())
    }
}

/// Emits every edge of the list as its own broken two-point group.
fn edge_vertices3(points: &Vec<Point3>, lines: &Vec<(usize, usize)>) -> (v: Vec<Vertex3>)
    requires
        crate::shapes::edges_wf(points@.len(), lines@),
    ensures
        v@ == edges_vertices3(points@, lines@),
{
    let mut v: Vec<Vertex3> = Vec::new();
    let mut i: usize = 0;
    while i < lines.len()
        invariant
            0 <= i <= lines@.len(),
            crate::shapes::edges_wf(points@.len(), lines@),
            v@ == edges_vertices3(points@, lines@.take(i as int)),
        decreases lines@.len() - i,
    {
        let (a, b) = lines[i];
        v.push(Vertex3::Point(points[a]));
        v.push(Vertex3::Point(points[b]));
        v.push(Vertex3::Break);
        proof {
            let pre = lines@.take(i as int);
            let post = lines@.take(i + 1);
            assert(post.drop_last() =~= pre);
            assert(post.last() == lines@[i as int]);
            assert(v@ =~= edges_vertices3(points@, post));
        }
        i = i + 1;
    }
    proof {
        assert(lines@.take(lines@.len() as int) =~= lines@);
    }
    v
}

/// The full circle sample used by every round 3D variant.
pub open spec fn full_circle(radius: u32, d: nat, rq: Rotation) -> Seq<Point2> {
    arc_seq(rq, side_seed(radius), 4 * d + 1)
}

/// A flat shape embedded in the z = 0 plane.
pub open spec fn spec_flat(base: Shape2d, d: nat, rq: Rotation) -> Seq<Vertex3> {
    placed_vertices(Embed3::Plain(Axis3::OnZ), spec_outline2(base, d, rq))
}

/// Three orthogonal great circles.
pub open spec fn spec_sphere(s: Sphere, d: nat, rq: Rotation) -> Seq<Vertex3> {
    let full = full_circle(s.radius, d, rq);
    placed_run(Embed3::Plain(Axis3::OnY), full) + seq![Vertex3::Break] + placed_run(
        Embed3::Plain(Axis3::OnX),
        full,
    ) + seq![Vertex3::Break] + placed_run(Embed3::Plain(Axis3::OnZ), full)
}

/// A full equator and two half meridians.
pub open spec fn spec_half_sphere(s: HalfSphere, d: nat, rq: Rotation) -> Seq<Vertex3> {
    placed_run(Embed3::Plain(Axis3::OnY), full_circle(s.radius, d, rq)) + seq![Vertex3::Break]
        + placed_run(
        Embed3::Plain(Axis3::OnZ),
        arc_seq(rq, Point2 { x: s.radius, y: 0 }, 2 * d + 1),
    ) + seq![Vertex3::Break] + placed_run(
        Embed3::Plain(Axis3::OnX),
        arc_seq(rq, Point2 { x: 0, y: neg_bits(s.radius) }, 2 * d + 1),
    )
}

/// A single nine-element chain covering all six edges with one break.
pub open spec fn spec_tetrahedron(t: Tetrahedron) -> Seq<Vertex3> {
    seq![
        Vertex3::Point(t.a),
        Vertex3::Point(t.b),
        Vertex3::Point(t.c),
        Vertex3::Point(t.a),
        Vertex3::Point(t.d),
        Vertex3::Point(t.c),
        Vertex3::Break,
        Vertex3::Point(t.d),
        Vertex3::Point(t.b),
    ]
}

/// The twelve cuboid edges: a back loop leading into the front face, the
/// front loop leading back, then the two remaining vertical edges.
pub open spec fn spec_cuboid(c: Cuboid) -> Seq<Vertex3> {
    let ax = quot_bits(c.size.x, BITS_TWO);
    let ay = quot_bits(c.size.y, BITS_TWO);
    let off = Point3 { x: 0, y: 0, z: quot_bits(c.size.z, BITS_TWO) };
    let back = Embed3::Minus(Axis3::OnZ, off);
    let front = Embed3::Plus(Axis3::OnZ, off);
    let ca = Point2 { x: ax, y: ay };
    let cb = Point2 { x: ax, y: neg_bits(ay) };
    let cc = Point2 { x: neg_bits(ax), y: neg_bits(ay) };
    let cd = Point2 { x: neg_bits(ax), y: ay };
    seq![
        Vertex3::Point(place(back, ca)),
        Vertex3::Point(place(back, cb)),
        Vertex3::Point(place(back, cc)),
        Vertex3::Point(place(back, cd)),
        Vertex3::Point(place(back, ca)),
        Vertex3::Point(place(front, ca)),
        Vertex3::Break,
        Vertex3::Point(place(front, cb)),
        Vertex3::Point(place(front, cc)),
        Vertex3::Point(place(front, cd)),
        Vertex3::Point(place(front, ca)),
        Vertex3::Point(place(front, cb)),
        Vertex3::Point(place(back, cb)),
        Vertex3::Break,
        Vertex3::Point(place(back, cc)),
        Vertex3::Point(place(front, cc)),
        Vertex3::Break,
        Vertex3::Point(place(back, cd)),
        Vertex3::Point(place(front, cd)),
    ]
}

/// A base loop at half the height below the plane, then one spoke from
/// every base vertex to the apex at half the height above.
pub open spec fn spec_pyramid(p: Pyramid, d: nat, rq: Rotation) -> Seq<Vertex3> {
    let k = quot_bits(p.height, BITS_TWO);
    let off = Point3 { x: 0, y: k, z: 0 };
    let eb = Embed3::Minus(Axis3::OnY, off);
    let ws = spec_outline2(p.base, d, rq);
    placed_vertices(eb, ws) + seq![Vertex3::Break] + spokes(eb, SpokeTop::Apex(off), ws)
}

/// A base loop, the same loop at the top, then one vertical spoke from
/// every base vertex.
pub open spec fn spec_extruded(e: Extruded, d: nat, rq: Rotation) -> Seq<Vertex3> {
    let k = quot_bits(e.height, BITS_TWO);
    let off = Point3 { x: 0, y: k, z: 0 };
    let eb = Embed3::Minus(Axis3::OnY, off);
    let et = Embed3::Plus(Axis3::OnY, off);
    let ws = spec_outline2(e.base, d, rq);
    placed_vertices(eb, ws) + seq![Vertex3::Break] + placed_vertices(et, ws) + seq![Vertex3::Break]
        + spokes(eb, SpokeTop::Placed(et), ws)
}

/// A full base circle, then spokes to the apex from a coarser circle of
/// `density + 1` directions.
pub open spec fn spec_cone(c: Cone, d: nat, rq: Rotation, rs: Rotation) -> Seq<Vertex3> {
    let k = quot_bits(c.height, BITS_TWO);
    let off = Point3 { x: 0, y: k, z: 0 };
    let eb = Embed3::Minus(Axis3::OnY, off);
    placed_run(eb, full_circle(c.base_radius, d, rq)) + seq![Vertex3::Break] + spokes(
        eb,
        SpokeTop::Apex(off),
        points_of2(arc_seq(rs, side_seed(c.base_radius), d + 1)),
    )
}

/// Base and top circles, then vertical spokes at a coarser circle of
/// `density + 1` directions.
pub open spec fn spec_cylinder(c: Cylinder, d: nat, rq: Rotation, rs: Rotation) -> Seq<Vertex3> {
    let k = quot_bits(c.height, BITS_TWO);
    let off = Point3 { x: 0, y: k, z: 0 };
    let eb = Embed3::Minus(Axis3::OnY, off);
    let et = Embed3::Plus(Axis3::OnY, off);
    placed_run(eb, full_circle(c.radius, d, rq)) + seq![Vertex3::Break] + placed_run(
        et,
        full_circle(c.radius, d, rq),
    ) + seq![Vertex3::Break] + spokes(
        eb,
        SpokeTop::Placed(et),
        points_of2(arc_seq(rs, side_seed(c.radius), d + 1)),
    )
}

/// The four joint segments connecting the capsule's top and bottom rims
/// at the four horizontal extremes.
pub open spec fn capsule_joints(radius: u32, off: Point3) -> Seq<Vertex3> {
    let offn = Point3 { x: 0x8000_0000, y: neg_bits(off.y), z: 0x8000_0000 };
    let ex = Point3 { x: radius, y: 0, z: 0 };
    let exn = Point3 { x: neg_bits(radius), y: 0, z: 0 };
    let ez = Point3 { x: 0, y: 0, z: radius };
    let ezn = Point3 { x: 0, y: 0, z: neg_bits(radius) };
    seq![
        Vertex3::Point(add3(off, ex)),
        Vertex3::Point(add3(offn, ex)),
        Vertex3::Break,
        Vertex3::Point(add3(off, exn)),
        Vertex3::Point(add3(offn, exn)),
        Vertex3::Break,
        Vertex3::Point(add3(off, ez)),
        Vertex3::Point(add3(offn, ez)),
        Vertex3::Break,
        Vertex3::Point(add3(off, ezn)),
        Vertex3::Point(add3(offn, ezn)),
    ]
}

/// Two hemispherical caps — three arcs each, shifted by half the segment
/// height — joined by four vertical segments at the rim extremes.
pub open spec fn spec_capsule(c: Capsule, d: nat, rq: Rotation) -> Seq<Vertex3> {
    let k = prod_bits(c.segment_height, BITS_HALF);
    let off = Point3 { x: 0, y: k, z: 0 };
    placed_run(Embed3::Plus(Axis3::OnX, off), arc_seq(rq, Point2 { x: 0, y: neg_bits(c.radius) }, 2 * d + 1))
        + seq![Vertex3::Break]
        + placed_run(Embed3::Plus(Axis3::OnY, off), full_circle(c.radius, d, rq))
        + seq![Vertex3::Break]
        + placed_run(Embed3::Plus(Axis3::OnZ, off), arc_seq(rq, Point2 { x: c.radius, y: 0 }, 2 * d + 1))
        + seq![Vertex3::Break]
        + placed_run(Embed3::Minus(Axis3::OnX, off), arc_seq(rq, Point2 { x: 0, y: c.radius }, 2 * d + 1))
        + seq![Vertex3::Break]
        + placed_run(Embed3::Minus(Axis3::OnY, off), full_circle(c.radius, d, rq))
        + seq![Vertex3::Break]
        + placed_run(Embed3::Minus(Axis3::OnZ, off), arc_seq(rq, side_seed(c.radius), 2 * d + 1))
        + seq![Vertex3::Break] + capsule_joints(c.radius, off)
}

/// Traces a pyramid: base loop, then spokes to the apex.
fn pyramid_vertices(p: &Pyramid, density: usize, rq: Rotation) -> (v: Vec<Vertex3>)
    requires
        density >= 1,
        shape2_wf(p.base),
        arc2_fits(p.base, density as nat),
    ensures
        v@ == spec_pyramid(*p, density as nat, rq),
{
    let k = div32(p.height, BITS_TWO);
    let off = Point3 { x: 0, y: k, z: 0 };
    let eb = Embed3::Minus(Axis3::OnY, off);
    let ws = outline_2d_with_step(&p.base, density, rq);
    let mut v: Vec<Vertex3> = Vec::new();
    push_placed_vertices(&mut v, eb, &ws);
    v.push(Vertex3::Break);
    push_spokes(&mut v, eb, SpokeTop::Apex(off), &ws);
    proof {
        assert(v@ =~= spec_pyramid(*p, density as nat, rq));
    }
    v
}

/// Traces an extrusion: base loop, top loop, then vertical spokes.
fn extruded_vertices(e: &Extruded, density: usize, rq: Rotation) -> (v: Vec<Vertex3>)
    requires
        density >= 1,
        shape2_wf(e.base),
        arc2_fits(e.base, density as nat),
    ensures
        v@ == spec_extruded(*e, density as nat, rq),
{
    let k = div32(e.height, BITS_TWO);
    let off = Point3 { x: 0, y: k, z: 0 };
    let eb = Embed3::Minus(Axis3::OnY, off);
    let et = Embed3::Plus(Axis3::OnY, off);
    let ws = outline_2d_with_step(&e.base, density, rq);
    let mut v: Vec<Vertex3> = Vec::new();
    push_placed_vertices(&mut v, eb, &ws);
    v.push(Vertex3::Break);
    push_placed_vertices(&mut v, et, &ws);
    v.push(Vertex3::Break);
    push_spokes(&mut v, eb, SpokeTop::Placed(et), &ws);
    proof {
        assert(v@ =~= spec_extruded(*e, density as nat, rq));
    }
    v
}

/// Traces a cone: base circle, then spokes to the apex.
fn cone_vertices(c: &Cone, density: usize, rq: Rotation, rs: Rotation) -> (v: Vec<Vertex3>)
    requires
        density >= 1,
        4 * density + 1 <= usize::MAX,
    ensures
        v@ == spec_cone(*c, density as nat, rq, rs),
{
    let k = div32(c.height, BITS_TWO);
    let off = Point3 { x: 0, y: k, z: 0 };
    let eb = Embed3::Minus(Axis3::OnY, off);
    let full = arc_points(rq, Point2 { x: negate32(c.base_radius), y: 0 }, 4 * density + 1);
    let coarse = vertices_of_points2(
        arc_points(rs, Point2 { x: negate32(c.base_radius), y: 0 }, density + 1),
    );
    let mut v: Vec<Vertex3> = Vec::new();
    push_placed_points(&mut v, eb, &full);
    v.push(Vertex3::Break);
    push_spokes(&mut v, eb, SpokeTop::Apex(off), &coarse);
    proof {
        assert(v@ =~= spec_cone(*c, density as nat, rq, rs));
    }
    v
}

/// Traces a cylinder: base circle, top circle, then vertical spokes.
fn cylinder_vertices(c: &Cylinder, density: usize, rq: Rotation, rs: Rotation) -> (v: Vec<Vertex3>)
    requires
        density >= 1,
        4 * density + 1 <= usize::MAX,
    ensures
        v@ == spec_cylinder(*c, density as nat, rq, rs),
{
    let k = div32(c.height, BITS_TWO);
    let off = Point3 { x: 0, y: k, z: 0 };
    let eb = Embed3::Minus(Axis3::OnY, off);
    let et = Embed3::Plus(Axis3::OnY, off);
    let full = arc_points(rq, Point2 { x: negate32(c.radius), y: 0 }, 4 * density + 1);
    let coarse = vertices_of_points2(
        arc_points(rs, Point2 { x: negate32(c.radius), y: 0 }, density + 1),
    );
    let mut v: Vec<Vertex3> = Vec::new();
    push_placed_points(&mut v, eb, &full);
    v.push(Vertex3::Break);
    push_placed_points(&mut v, et, &full);
    v.push(Vertex3::Break);
    push_spokes(&mut v, eb, SpokeTop::Placed(et), &coarse);
    proof {
        assert(v@ =~= spec_cylinder(*c, density as nat, rq, rs));
    }
    v
}

/// Traces a capsule: two hemispherical caps and their joint segments.
fn capsule_vertices(c: &Capsule, density: usize, rq: Rotation) -> (v: Vec<Vertex3>)
    requires
        density >= 1,
        4 * density + 1 <= usize::MAX,
    ensures
        v@ == spec_capsule(*c, density as nat, rq),
{
    let k = mul32(c.segment_height, BITS_HALF);
    let off = Point3 { x: 0, y: k, z: 0 };
    let offn = Point3 { x: 0x8000_0000, y: negate32(k), z: 0x8000_0000 };
    let full = arc_points(rq, Point2 { x: negate32(c.radius), y: 0 }, 4 * density + 1);
    let half_top_x = arc_points(rq, Point2 { x: 0, y: negate32(c.radius) }, 2 * density + 1);
    let half_top_z = arc_points(rq, Point2 { x: c.radius, y: 0 }, 2 * density + 1);
    let half_bot_x = arc_points(rq, Point2 { x: 0, y: c.radius }, 2 * density + 1);
    let half_bot_z = arc_points(rq, Point2 { x: negate32(c.radius), y: 0 }, 2 * density + 1);
    let mut v: Vec<Vertex3> = Vec::new();
    push_placed_points(&mut v, Embed3::Plus(Axis3::OnX, off), &half_top_x);
    v.push(Vertex3::Break);
    push_placed_points(&mut v, Embed3::Plus(Axis3::OnY, off), &full);
    v.push(Vertex3::Break);
    push_placed_points(&mut v, Embed3::Plus(Axis3::OnZ, off), &half_top_z);
    v.push(Vertex3::Break);
    push_placed_points(&mut v, Embed3::Minus(Axis3::OnX, off), &half_bot_x);
    v.push(Vertex3::Break);
    push_placed_points(&mut v, Embed3::Minus(Axis3::OnY, off), &full);
    v.push(Vertex3::Break);
    push_placed_points(&mut v, Embed3::Minus(Axis3::OnZ, off), &half_bot_z);
    v.push(Vertex3::Break);
    let ex = Point3 { x: c.radius, y: 0, z: 0 };
    let exn = Point3 { x: negate32(c.radius), y: 0, z: 0 };
    let ez = Point3 { x: 0, y: 0, z: c.radius };
    let ezn = Point3 { x: 0, y: 0, z: negate32(c.radius) };
    v.push(Vertex3::Point(add_points(off, ex)));
    v.push(Vertex3::Point(add_points(offn, ex)));
    v.push(Vertex3::Break);
    v.push(Vertex3::Point(add_points(off, exn)));
    v.push(Vertex3::Point(add_points(offn, exn)));
    v.push(Vertex3::Break);
    v.push(Vertex3::Point(add_points(off, ez)));
    v.push(Vertex3::Point(add_points(offn, ez)));
    v.push(Vertex3::Break);
    v.push(Vertex3::Point(add_points(off, ezn)));
    v.push(Vertex3::Point(add_points(offn, ezn)));
    proof {
        assert(v@ =~= spec_capsule(*c, density as nat, rq));
    }
    v
}

/// Traces a flat shape embedded in space.
fn flat_vertices(base: &Shape2d, density: usize, rq: Rotation) -> (v: Vec<Vertex3>)
    requires
        density >= 1,
        shape2_wf(*base),
        arc2_fits(*base, density as nat),
    ensures
        v@ == spec_flat(*base, density as nat, rq),
{
    let ws = outline_2d_with_step(base, density, rq);
    let mut v: Vec<Vertex3> = Vec::new();
    push_placed_vertices(&mut v, Embed3::Plain(Axis3::OnZ), &ws);
    proof {
        assert(v@ =~= spec_flat(*base, density as nat, rq));
    }
    v
}

/// Traces the three great circles of a sphere.
fn sphere_vertices(s: &Sphere, density: usize, rq: Rotation) -> (v: Vec<Vertex3>)
    requires
        density >= 1,
        4 * density + 1 <= usize::MAX,
    ensures
        v@ == spec_sphere(*s, density as nat, rq),
{
    let full = arc_points(rq, Point2 { x: negate32(s.radius), y: 0 }, 4 * density + 1);
    let mut v: Vec<Vertex3> = Vec::new();
    push_placed_points(&mut v, Embed3::Plain(Axis3::OnY), &full);
    v.push(Vertex3::Break);
    push_placed_points(&mut v, Embed3::Plain(Axis3::OnX), &full);
    v.push(Vertex3::Break);
    push_placed_points(&mut v, Embed3::Plain(Axis3::OnZ), &full);
    proof {
        assert(v@ =~= spec_sphere(*s, density as nat, rq));
    }
    v
}

/// Traces the equator and two half meridians of a half sphere.
fn half_sphere_vertices(s: &HalfSphere, density: usize, rq: Rotation) -> (v: Vec<Vertex3>)
    requires
        density >= 1,
        4 * density + 1 <= usize::MAX,
    ensures
        v@ == spec_half_sphere(*s, density as nat, rq),
{
    let full = arc_points(rq, Point2 { x: negate32(s.radius), y: 0 }, 4 * density + 1);
    let half_z = arc_points(rq, Point2 { x: s.radius, y: 0 }, 2 * density + 1);
    let half_x = arc_points(rq, Point2 { x: 0, y: negate32(s.radius) }, 2 * density + 1);
    let mut v: Vec<Vertex3> = Vec::new();
    push_placed_points(&mut v, Embed3::Plain(Axis3::OnY), &full);
    v.push(Vertex3::Break);
    push_placed_points(&mut v, Embed3::Plain(Axis3::OnZ), &half_z);
    v.push(Vertex3::Break);
    push_placed_points(&mut v, Embed3::Plain(Axis3::OnX), &half_x);
    proof {
        assert(v@ =~= spec_half_sphere(*s, density as nat, rq));
    }
    v
}

/// Traces the six edges of a tetrahedron as one chain with one break.
fn tetrahedron_vertices(t: &Tetrahedron) -> (v: Vec<Vertex3>)
    ensures
        v@ == spec_tetrahedron(*t),
{
    let mut v: Vec<Vertex3> = Vec::new();
    v.push(Vertex3::Point(t.a));
    v.push(Vertex3::Point(t.b));
    v.push(Vertex3::Point(t.c));
    v.push(Vertex3::Point(t.a));
    v.push(Vertex3::Point(t.d));
    v.push(Vertex3::Point(t.c));
    v.push(Vertex3::Break);
    v.push(Vertex3::Point(t.d));
    v.push(Vertex3::Point(t.b));
    proof {
        assert(v@ =~= spec_tetrahedron(*t));
    }
    v
}

/// Traces the twelve edges of a cuboid.
fn cuboid_vertices(c: &Cuboid) -> (v: Vec<Vertex3>)
    ensures
        v@ == spec_cuboid(*c),
{
    let ax = div32(c.size.x, BITS_TWO);
    let ay = div32(c.size.y, BITS_TWO);
    let off = Point3 { x: 0, y: 0, z: div32(c.size.z, BITS_TWO) };
    let back = Embed3::Minus(Axis3::OnZ, off);
    let front = Embed3::Plus(Axis3::OnZ, off);
    let ca = Point2 { x: ax, y: ay };
    let cb = Point2 { x: ax, y: negate32(ay) };
    let cc = Point2 { x: negate32(ax), y: negate32(ay) };
    let cd = Point2 { x: negate32(ax), y: ay };
    let mut v: Vec<Vertex3> = Vec::new();
    v.push(Vertex3::Point(place_point(back, ca)));
    v.push(Vertex3::Point(place_point(back, cb)));
    v.push(Vertex3::Point(place_point(back, cc)));
    v.push(Vertex3::Point(place_point(back, cd)));
    v.push(Vertex3::Point(place_point(back, ca)));
    v.push(Vertex3::Point(place_point(front, ca)));
    v.push(Vertex3::Break);
    v.push(Vertex3::Point(place_point(front, cb)));
    v.push(Vertex3::Point(place_point(front, cc)));
    v.push(Vertex3::Point(place_point(front, cd)));
    v.push(Vertex3::Point(place_point(front, ca)));
    v.push(Vertex3::Point(place_point(front, cb)));
    v.push(Vertex3::Point(place_point(back, cb)));
    v.push(Vertex3::Break);
    v.push(Vertex3::Point(place_point(back, cc)));
    v.push(Vertex3::Point(place_point(front, cc)));
    v.push(Vertex3::Break);
    v.push(Vertex3::Point(place_point(back, cd)));
    v.push(Vertex3::Point(place_point(front, cd)));
    proof {
        assert(v@ =~= spec_cuboid(*c));
    }
    v
}

/// What the 3D engine returns: the exact vertex sequence for each shape,
/// as a function of the shape, the density and the two sampled rotation
/// steps (`rq` for quarter-circle arcs, `rs` for spoke directions; only
/// the cone and the cylinder read `rs`).
pub open spec fn spec_outline3(s: Shape, d: nat, rq: Rotation, rs: Rotation) -> Seq<Vertex3> {
    match s {
        Shape::Shape2d(base) => spec_flat(base, d, rq),
        Shape::Pyramid(p) => spec_pyramid(p, d, rq),
        Shape::Extruded(e) => spec_extruded(e, d, rq),
        Shape::Sphere(sp) => spec_sphere(sp, d, rq),
        Shape::HalfSphere(sp) => spec_half_sphere(sp, d, rq),
        Shape::Capsule(c) => spec_capsule(c, d, rq),
        Shape::Cuboid(c) => spec_cuboid(c),
        Shape::Cone(c) => spec_cone(c, d, rq, rs),
        Shape::Tetrahedron(t) => spec_tetrahedron(t),
        Shape::Lines(l) => edges_vertices3(l.points@, l.lines@),
        Shape::Cylinder(c) => spec_cylinder(c, d, rq, rs),
        Shape::HeightField(h) => spec_heightfield(h),
    }
}

/// The arc lengths this shape asks for fit in a machine word.
pub open spec fn arc3_fits(s: Shape, d: nat) -> bool {
    match s {
        Shape::Shape2d(base) => arc2_fits(base, d),
        Shape::Pyramid(p) => arc2_fits(p.base, d),
        Shape::Extruded(e) => arc2_fits(e.base, d),
        Shape::Sphere(_) => 4 * d + 1 <= usize::MAX,
        Shape::HalfSphere(_) => 4 * d + 1 <= usize::MAX,
        Shape::Capsule(_) => 4 * d + 1 <= usize::MAX,
        Shape::Cone(_) => 4 * d + 1 <= usize::MAX,
        Shape::Cylinder(_) => 4 * d + 1 <= usize::MAX,
        _ => true,
    }
}

/// No element of the outline is a break.
pub open spec fn no_breaks3(s: Seq<Vertex3>) -> bool {
    forall|i: int| 0 <= i < s.len() ==> !((#[trigger] s[i]) is Break)
}

/// Determinism: the outline is a mathematical function of the shape,
/// the density and the sampled rotation steps, so two outlines of the
/// same shape at the same density with the same steps are identical.
pub proof fn lemma_outline_deterministic(
    s: Shape,
    d: nat,
    rq: Rotation,
    rs: Rotation,
    v1: Seq<Vertex3>,
    v2: Seq<Vertex3>,
)
    requires
        v1 == spec_outline3(s, d, rq, rs),
        v2 == spec_outline3(s, d, rq, rs),
    ensures
        v1 == v2,
{
}

/// The shape's outline mentions no circular arc, so no rotation step is
/// read at all.
pub open spec fn step_free(s: Shape) -> bool {
    match s {
        Shape::Shape2d(base) => step_free2(base),
        Shape::Pyramid(p) => step_free2(p.base),
        Shape::Extruded(e) => step_free2(e.base),
        Shape::Cuboid(_) => true,
        Shape::Tetrahedron(_) => true,
        Shape::Lines(_) => true,
        Shape::HeightField(_) => true,
        _ => false,
    }
}

/// An outline without arcs does not depend on the sampled rotation
/// steps at all: for such shapes the engine is deterministic outright.
pub proof fn lemma_step_free(
    s: Shape,
    d: nat,
    rq1: Rotation,
    rs1: Rotation,
    rq2: Rotation,
    rs2: Rotation,
)
    requires
        step_free(s),
    ensures
        spec_outline3(s, d, rq1, rs1) == spec_outline3(s, d, rq2, rs2),
{
    match s {
        Shape::Shape2d(base) => lemma_step_free2(base, d, rq1, rq2),
        Shape::Pyramid(p) => lemma_step_free2(p.base, d, rq1, rq2),
        Shape::Extruded(e) => lemma_step_free2(e.base, d, rq1, rq2),
        _ => (),
    }
}

/// A tetrahedron outline has exactly nine elements, and its single
/// break stands exactly in the middle of the chain.
pub proof fn lemma_tetrahedron_count(t: Tetrahedron)
    ensures
        spec_tetrahedron(t).len() == 9,
        forall|i: int|
            0 <= i < 9 ==> ((#[trigger] spec_tetrahedron(t)[i]) is Break <==> i == 6),
{
}

/// A cuboid outline has exactly nineteen elements with breaks at three
/// fixed places, and both six-point face loops close: the back loop
/// returns to its first corner, and so does the front loop.
pub proof fn lemma_cuboid_structure(c: Cuboid)
    ensures
        spec_cuboid(c).len() == 19,
        forall|i: int|
            0 <= i < 19 ==> ((#[trigger] spec_cuboid(c)[i]) is Break <==> i == 6 || i == 13 || i
                == 16),
        spec_cuboid(c)[0] == spec_cuboid(c)[4],
        spec_cuboid(c)[7] == spec_cuboid(c)[11],
{
}

/// Edge coverage of a line collection: with `n` edges the outline has
/// exactly `3·n` elements — for the `i`-th edge its two endpoints in
/// order, then one break — and breaks stand nowhere else.
pub proof fn lemma_lines_edges(ps: Seq<Point3>, ls: Seq<(usize, usize)>)
    ensures
        edges_vertices3(ps, ls).len() == 3 * ls.len(),
        forall|i: int|
            0 <= i < ls.len() ==> edges_vertices3(ps, ls)[3 * i] == Vertex3::Point(
                ps[(#[trigger] ls[i]).0 as int],
            ) && edges_vertices3(ps, ls)[3 * i + 1] == Vertex3::Point(ps[ls[i].1 as int])
                && edges_vertices3(ps, ls)[3 * i + 2] == Vertex3::Break,
        forall|j: int|
            0 <= j < 3 * ls.len() ==> ((#[trigger] edges_vertices3(ps, ls)[j]) is Break <==> j % 3
                == 2),
    decreases ls.len(),
{
    if ls.len() == 0 {
    } else {
        let n = ls.len() as int;
        let prefix = ls.drop_last();
        lemma_lines_edges(ps, prefix);
        assert(edges_vertices3(ps, ls) == edges_vertices3(ps, prefix) + edge_group3(
            ps,
            ls.last(),
        ));
        assert forall|i: int| 0 <= i < n implies edges_vertices3(ps, ls)[3 * i] == Vertex3::Point(
            ps[(#[trigger] ls[i]).0 as int],
        ) && edges_vertices3(ps, ls)[3 * i + 1] == Vertex3::Point(ps[ls[i].1 as int])
            && edges_vertices3(ps, ls)[3 * i + 2] == Vertex3::Break by {
            if i < n - 1 {
                assert(prefix[i] == ls[i]);
            } else {
                assert(ls.last() == ls[i]);
            }
        }
        assert forall|j: int| 0 <= j < 3 * n implies ((#[trigger] edges_vertices3(ps, ls)[j])
            is Break <==> j % 3 == 2) by {
            if j >= 3 * (n - 1) {
                assert(edges_vertices3(ps, ls)[j] == edge_group3(ps, ls.last())[j - 3 * (n - 1)]);
            }
        }
    }
}

/// Placing a closed loop in space keeps it closed.
pub proof fn lemma_placed_closure(e: Embed3, ws: Seq<Vertex2>)
    requires
        ws.len() >= 1,
        ws[0] == ws[ws.len() - 1],
    ensures
        placed_vertices(e, ws).len() == ws.len(),
        placed_vertices(e, ws)[0] == placed_vertices(e, ws)[ws.len() - 1],
{
}

/// The base loop of a pyramid over a rectangle or triangle base closes:
/// the loop's last point equals its first.
pub proof fn lemma_pyramid_base_closes(p: Pyramid, d: nat, rq: Rotation)
    requires
        p.base is Rectangle || p.base is Triangle,
    ensures
        spec_pyramid(p, d, rq)[0] == spec_pyramid(p, d, rq)[spec_outline2(p.base, d, rq).len()
            - 1],
{
    let ws = spec_outline2(p.base, d, rq);
    match p.base {
        Shape2d::Rectangle(r) => crate::outline2::lemma_rectangle_closes(r, d, rq),
        Shape2d::Triangle(t) => crate::outline2::lemma_triangle_closes(t, d, rq),
        _ => (),
    }
    let k = quot_bits(p.height, BITS_TWO);
    let off = Point3 { x: 0, y: k, z: 0 };
    let eb = Embed3::Minus(Axis3::OnY, off);
    lemma_placed_closure(eb, ws);
    assert(spec_pyramid(p, d, rq)[0] == placed_vertices(eb, ws)[0]);
    assert(spec_pyramid(p, d, rq)[ws.len() - 1] == placed_vertices(eb, ws)[ws.len() - 1]);
}

/// Both loops of an extrusion over a rectangle or triangle base close:
/// the base loop returns to its first point, and so does the top loop.
pub proof fn lemma_extruded_loops_close(e: Extruded, d: nat, rq: Rotation)
    requires
        e.base is Rectangle || e.base is Triangle,
    ensures
        spec_extruded(e, d, rq)[0] == spec_extruded(e, d, rq)[spec_outline2(e.base, d, rq).len()
            - 1],
        spec_extruded(e, d, rq)[(spec_outline2(e.base, d, rq).len() + 1) as int] == spec_extruded(
            e,
            d,
            rq,
        )[(2 * spec_outline2(e.base, d, rq).len()) as int],
{
    let ws = spec_outline2(e.base, d, rq);
    let n = ws.len() as int;
    match e.base {
        Shape2d::Rectangle(r) => crate::outline2::lemma_rectangle_closes(r, d, rq),
        Shape2d::Triangle(t) => crate::outline2::lemma_triangle_closes(t, d, rq),
        _ => (),
    }
    let k = quot_bits(e.height, BITS_TWO);
    let off = Point3 { x: 0, y: k, z: 0 };
    let eb = Embed3::Minus(Axis3::OnY, off);
    let et = Embed3::Plus(Axis3::OnY, off);
    lemma_placed_closure(eb, ws);
    lemma_placed_closure(et, ws);
    let out = spec_extruded(e, d, rq);
    assert(out[0] == placed_vertices(eb, ws)[0]);
    assert(out[n - 1] == placed_vertices(eb, ws)[n - 1]);
    assert(out[n + 1] == placed_vertices(et, ws)[0]);
    assert(out[2 * n] == placed_vertices(et, ws)[n - 1]);
}

/// Traces the outline of a shape with the given rotation steps; the
/// result is exactly [`spec_outline3`].
pub fn outline_with_steps(shape: &Shape, density: usize, rq: Rotation, rs: Rotation) -> (v: Vec<
    Vertex3,
>)
    requires
        density >= 1,
        shape_wf(*shape),
        arc3_fits(*shape, density as nat),
    ensures
        v@ == spec_outline3(*shape, density as nat, rq, rs),
{
    match shape {
        Shape::Shape2d(base) => flat_vertices(base, density, rq),
        Shape::Pyramid(p) => pyramid_vertices(p, density, rq),
        Shape::Extruded(e) => extruded_vertices(e, density, rq),
        Shape::Sphere(sp) => sphere_vertices(sp, density, rq),
        Shape::HalfSphere(sp) => half_sphere_vertices(sp, density, rq),
        Shape::Capsule(c) => capsule_vertices(c, density, rq),
        Shape::Cuboid(c) => cuboid_vertices(c),
        Shape::Cone(c) => cone_vertices(c, density, rq, rs),
        Shape::Tetrahedron(t) => tetrahedron_vertices(t),
        Shape::Lines(l) => edge_vertices3(&l.points, &l.lines),
        Shape::Cylinder(c) => cylinder_vertices(c, density, rq, rs),
        Shape::HeightField(h) => heightfield_vertices(h),
    }
}

} // verus!
