//! The shape descriptions the engine accepts, and the elements it emits.
//!
//! Every coordinate is a binary32 bit pattern (see [`crate::scalar`]).
//! An outline is a flat sequence of [`Vertex2`] or [`Vertex3`] elements:
//! points, separated by explicit `Break` elements wherever the pen lifts
//! between disconnected line groups.

use vstd::prelude::*;

verus! {

/// A point in the plane; each coordinate is a binary32 bit pattern.
#[derive(Clone, Copy, PartialEq, Eq, Structural, Debug)]
pub struct Point2 {
    pub x: u32,
    pub y: u32,
}

/// A point in space; each coordinate is a binary32 bit pattern.
#[derive(Clone, Copy, PartialEq, Eq, Structural, Debug)]
pub struct Point3 {
    pub x: u32,
    pub y: u32,
    pub z: u32,
}

/// One element of a flat 2D outline: a point, or a lift of the pen.
#[derive(Clone, Copy, PartialEq, Eq, Structural, Debug)]
pub enum Vertex2 {
    Point(Point2),
    Break,
}

/// One element of a flat 3D outline: a point, or a lift of the pen.
#[derive(Clone, Copy, PartialEq, Eq, Structural, Debug)]
pub enum Vertex3 {
    Point(Point3),
    Break,
}

/// Full disc boundary.
#[derive(Clone, Copy, Debug)]
pub struct Disc {
    pub radius: u32,
}

/// Upper half of a circle.
#[derive(Clone, Copy, Debug)]
pub struct HalfDisc {
    pub radius: u32,
}

/// +x/+y quadrant of a circle.
#[derive(Clone, Copy, Debug)]
pub struct QuarterDisc {
    pub radius: u32,
}

/// Axis-aligned box boundary of the given width and height.
#[derive(Clone, Copy, Debug)]
pub struct Rectangle {
    pub size: Point2,
}

/// Three-vertex closed loop.
#[derive(Clone, Copy, Debug)]
pub struct Triangle {
    pub a: Point2,
    pub b: Point2,
    pub c: Point2,
}

/// Arbitrary edge list over shared vertices.  Each entry of `lines` is a
/// pair of indexes into `points`; `tris` is accepted as input data only
/// and never read by the outline engine.
#[derive(Clone, Debug)]
pub struct Polygon {
    pub points: Vec<Point2>,
    pub lines: Vec<(usize, usize)>,
    pub tris: Vec<(usize, usize, usize)>,
}

/// A flat shape.
#[derive(Clone, Debug)]
pub enum Shape2d {
    Disc(Disc),
    HalfDisc(HalfDisc),
    QuarterDisc(QuarterDisc),
    Rectangle(Rectangle),
    Triangle(Triangle),
    Polygon(Polygon),
}

/// A pyramid with a base of arbitrary flat shape.
#[derive(Clone, Debug)]
pub struct Pyramid {
    pub base: Shape2d,
    pub height: u32,
}

/// A flat shape extruded along its perpendicular axis.
#[derive(Clone, Debug)]
pub struct Extruded {
    pub base: Shape2d,
    pub height: u32,
}

/// Sphere drawn as three orthogonal great circles.
#[derive(Clone, Copy, Debug)]
pub struct Sphere {
    pub radius: u32,
}

/// Upper half of a sphere.
#[derive(Clone, Copy, Debug)]
pub struct HalfSphere {
    pub radius: u32,
}

/// Cylinder body of the given height capped by two hemispheres.
#[derive(Clone, Copy, Debug)]
pub struct Capsule {
    pub radius: u32,
    pub segment_height: u32,
}

/// 3D rectangle specified as the full length of each edge.
#[derive(Clone, Copy, Debug)]
pub struct Cuboid {
    pub size: Point3,
}

/// Base circle plus spokes meeting at the apex.
#[derive(Clone, Copy, Debug)]
pub struct Cone {
    pub height: u32,
    pub base_radius: u32,
}

/// A four-cornered solid with six edges.
#[derive(Clone, Copy, Debug)]
pub struct Tetrahedron {
    pub a: Point3,
    pub b: Point3,
    pub c: Point3,
    pub d: Point3,
}

/// A collection of 3D lines: each entry of `lines` is a pair of indexes
/// into `points`.
#[derive(Clone, Debug)]
pub struct Lines {
    pub points: Vec<Point3>,
    pub lines: Vec<(usize, usize)>,
}

/// Two circles joined by vertical spokes.
#[derive(Clone, Copy, Debug)]
pub struct Cylinder {
    pub height: u32,
    pub radius: u32,
}

/// 3D plane with varying elevation based on a grid.  `heights` is a
/// rectangular grid of elevation samples, column by column; `size` spans
/// the grid across the two horizontal axes.
#[derive(Clone, Debug)]
pub struct HeightField {
    pub heights: Vec<Vec<u32>>,
    pub size: Point2,
}

/// A volumetric or surface shape.
#[derive(Clone, Debug)]
pub enum Shape {
    Shape2d(Shape2d),
    Pyramid(Pyramid),
    Extruded(Extruded),
    Sphere(Sphere),
    HalfSphere(HalfSphere),
    Capsule(Capsule),
    Cuboid(Cuboid),
    Cone(Cone),
    Tetrahedron(Tetrahedron),
    Lines(Lines),
    Cylinder(Cylinder),
    HeightField(HeightField),
}

/// Every edge of the list points at vertices that exist.
pub open spec fn edges_wf(points_len: nat, lines: Seq<(usize, usize)>) -> bool {
    forall|i: int|
        0 <= i < lines.len() ==> (#[trigger] lines[i]).0 < points_len && lines[i].1 < points_len
}

/// The grid is non-empty and rectangular.
pub open spec fn grid_wf(heights: Seq<Vec<u32>>) -> bool {
    &&& heights.len() >= 1
    &&& heights[0]@.len() >= 1
    &&& forall|i: int|
        0 <= i < heights.len() ==> (#[trigger] heights[i])@.len() == heights[0]@.len()
}

/// A flat shape the engine accepts: polygon edge indexes are in range.
pub open spec fn shape2_wf(s: Shape2d) -> bool {
    match s {
        Shape2d::Polygon(p) => edges_wf(p.points@.len(), p.lines@),
        _ => true,
    }
}

/// A shape the engine accepts: edge indexes are in range and height
/// grids are non-empty and rectangular.
pub open spec fn shape_wf(s: Shape) -> bool {
    match s {
        Shape::Shape2d(base) => shape2_wf(base),
        Shape::Pyramid(p) => shape2_wf(p.base),
        Shape::Extruded(e) => shape2_wf(e.base),
        Shape::Lines(l) => edges_wf(l.points@.len(), l.lines@),
        Shape::HeightField(h) => grid_wf(h.heights@),
        _ => true,
    }
}

} // verus!
