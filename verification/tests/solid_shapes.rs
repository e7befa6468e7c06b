use cool_shapes::arc::Rotation;
use cool_shapes::outline3::outline_with_steps;
use cool_shapes::shapes::{
    Capsule, Cone, Cuboid, Cylinder, Disc, Extruded, Lines, Point2, Point3, Pyramid, Rectangle,
    Shape, Shape2d, Sphere, Tetrahedron, Triangle, Vertex3,
};
use cool_shapes::{outline, OutlineableShape};

fn p2(x: f32, y: f32) -> Point2 {
    Point2 { x: x.to_bits(), y: y.to_bits() }
}

fn p3(x: f32, y: f32, z: f32) -> Point3 {
    Point3 { x: x.to_bits(), y: y.to_bits(), z: z.to_bits() }
}

fn decode3(w: &Vertex3) -> Option<(f32, f32, f32)> {
    match w {
        Vertex3::Point(p) => Some((
            f32::from_bits(p.x),
            f32::from_bits(p.y),
            f32::from_bits(p.z),
        )),
        Vertex3::Break => None,
    }
}

fn close3(a: (f32, f32, f32), b: (f32, f32, f32)) -> bool {
    (a.0 - b.0).abs() < 1e-5 && (a.1 - b.1).abs() < 1e-5 && (a.2 - b.2).abs() < 1e-5
}

#[test]
fn tetrahedron_single_chain() {
    let a = p3(0.0, 0.0, 0.0);
    let b = p3(2.0, 0.0, 0.0);
    let c = p3(0.0, 2.0, 0.0);
    let d = p3(0.0, 0.0, 2.0);
    let shape = Shape::Tetrahedron(Tetrahedron { a, b, c, d });
    let out = outline(&shape, 1);
    let expect = vec![
        Vertex3::Point(a),
        Vertex3::Point(b),
        Vertex3::Point(c),
        Vertex3::Point(a),
        Vertex3::Point(d),
        Vertex3::Point(c),
        Vertex3::Break,
        Vertex3::Point(d),
        Vertex3::Point(b),
    ];
    assert_eq!(out, expect);
}

#[test]
fn cuboid_structure_and_edge_set() {
    let shape = Shape::Cuboid(Cuboid { size: p3(2.0, 2.0, 2.0) });
    let out = outline(&shape, 1);
    assert_eq!(out.len(), 19);
    for (i, w) in out.iter().enumerate() {
        let is_break = matches!(w, Vertex3::Break);
        assert_eq!(is_break, i == 6 || i == 13 || i == 16);
    }
    // both face loops close
    assert_eq!(out[0], out[4]);
    assert_eq!(out[7], out[11]);
    // all corners are at distance one along each axis
    for w in &out {
        if let Some((x, y, z)) = decode3(w) {
            assert_eq!(x.abs(), 1.0);
            assert_eq!(y.abs(), 1.0);
            assert_eq!(z.abs(), 1.0);
        }
    }
    // de-duplicated undirected edges: exactly twelve
    let mut edges: Vec<((u32, u32, u32), (u32, u32, u32))> = Vec::new();
    let mut prev: Option<(u32, u32, u32)> = None;
    for w in &out {
        match w {
            Vertex3::Point(p) => {
                let cur = (p.x, p.y, p.z);
                if let Some(q) = prev {
                    let e = if q <= cur { (q, cur) } else { (cur, q) };
                    if !edges.contains(&e) {
                        edges.push(e);
                    }
                }
                prev = Some(cur);
            }
            Vertex3::Break => prev = None,
        }
    }
    assert_eq!(edges.len(), 12);
}

#[test]
fn sphere_three_great_circles() {
    let shape = Shape::Sphere(Sphere { radius: 1f32.to_bits() });
    let out = outline(&shape, 1);
    assert_eq!(out.len(), 17);
    assert_eq!(out[5], Vertex3::Break);
    assert_eq!(out[11], Vertex3::Break);
    // first circle lies in the y = 0 plane, second in x = 0, third in z = 0
    for w in &out[0..5] {
        assert_eq!(decode3(w).unwrap().1, 0.0);
    }
    for w in &out[6..11] {
        assert_eq!(decode3(w).unwrap().0, 0.0);
    }
    for w in &out[12..17] {
        assert_eq!(decode3(w).unwrap().2, 0.0);
    }
}

#[test]
fn half_sphere_structure() {
    let shape = Shape::HalfSphere(cool_shapes::shapes::HalfSphere { radius: 1f32.to_bits() });
    let out = outline(&shape, 1);
    assert_eq!(out.len(), 13);
    assert_eq!(out[5], Vertex3::Break);
    assert_eq!(out[9], Vertex3::Break);
    // both meridians stay in the upper half space
    for w in out[6..9].iter().chain(out[10..13].iter()) {
        assert!(decode3(w).unwrap().1 > -1e-5);
    }
}

#[test]
fn capsule_joints_connect_the_rims() {
    let shape = Shape::Capsule(Capsule {
        radius: 1f32.to_bits(),
        segment_height: 2f32.to_bits(),
    });
    let out = outline(&shape, 1);
    // six arc groups (3, 5, 3, 3, 5, 3 points) and one joint group of
    // eight points with three inner breaks, chained with six breaks
    assert_eq!(out.len(), 3 + 1 + 5 + 1 + 3 + 1 + 3 + 1 + 5 + 1 + 3 + 1 + 11);
    let joints: Vec<(f32, f32, f32)> = out[out.len() - 11..]
        .iter()
        .filter_map(decode3)
        .collect();
    assert_eq!(joints.len(), 8);
    assert!(close3(joints[0], (1.0, 1.0, 0.0)));
    assert!(close3(joints[1], (1.0, -1.0, 0.0)));
    assert!(close3(joints[2], (-1.0, 1.0, 0.0)));
    assert!(close3(joints[3], (-1.0, -1.0, 0.0)));
    assert!(close3(joints[4], (0.0, 1.0, 1.0)));
    assert!(close3(joints[5], (0.0, -1.0, 1.0)));
    assert!(close3(joints[6], (0.0, 1.0, -1.0)));
    assert!(close3(joints[7], (0.0, -1.0, -1.0)));
}

#[test]
fn cone_base_and_spokes() {
    let shape = Shape::Cone(Cone { height: 2f32.to_bits(), base_radius: 1f32.to_bits() });
    let out = outline(&shape, 1);
    // base circle of five points, one break, two spokes of three
    // elements each (the last break included)
    assert_eq!(out.len(), 5 + 1 + 6);
    for w in &out[0..5] {
        assert_eq!(decode3(w).unwrap().1, -1.0);
    }
    assert_eq!(out[5], Vertex3::Break);
    assert!(close3(decode3(&out[7]).unwrap(), (0.0, 1.0, 0.0)));
    assert!(close3(decode3(&out[10]).unwrap(), (0.0, 1.0, 0.0)));
    assert_eq!(out[8], Vertex3::Break);
    assert_eq!(out[11], Vertex3::Break);
}

#[test]
fn cylinder_two_circles_and_spokes() {
    let shape = Shape::Cylinder(Cylinder { height: 4f32.to_bits(), radius: 1f32.to_bits() });
    let out = outline(&shape, 1);
    assert_eq!(out.len(), 5 + 1 + 5 + 1 + 6);
    for w in &out[0..5] {
        assert_eq!(decode3(w).unwrap().1, -2.0);
    }
    for w in &out[6..11] {
        assert_eq!(decode3(w).unwrap().1, 2.0);
    }
    // each spoke joins matching base and top points
    let foot = decode3(&out[12]).unwrap();
    let top = decode3(&out[13]).unwrap();
    assert_eq!(foot.1, -2.0);
    assert_eq!(top.1, 2.0);
    assert!(close3((foot.0, 0.0, foot.2), (top.0, 0.0, top.2)));
}

#[test]
fn pyramid_rectangle_base_closes() {
    let base = Shape2d::Rectangle(Rectangle { size: p2(2.0, 2.0) });
    let shape = Shape::Pyramid(Pyramid { base, height: 2f32.to_bits() });
    let out = outline(&shape, 1);
    // base loop of five, one break, five spokes of three elements
    assert_eq!(out.len(), 5 + 1 + 15);
    assert_eq!(out[0], out[4]);
    for w in &out[0..5] {
        assert_eq!(decode3(w).unwrap().1, -1.0);
    }
    // every spoke ends at the apex before its break
    for s in 0..5 {
        let apex = decode3(&out[6 + 3 * s + 1]).unwrap();
        assert!(close3(apex, (0.0, 1.0, 0.0)));
        assert_eq!(out[6 + 3 * s + 2], Vertex3::Break);
    }
}

#[test]
fn extrusion_triangle_loops_close() {
    let a = p2(0.0, 0.0);
    let b = p2(1.0, 0.0);
    let c = p2(0.0, 1.0);
    let base = Shape2d::Triangle(Triangle { a, b, c });
    let shape = Shape::Extruded(Extruded { base, height: 2f32.to_bits() });
    let out = outline(&shape, 1);
    // two loops of four, then four spokes of three elements
    assert_eq!(out.len(), 4 + 1 + 4 + 1 + 12);
    assert_eq!(out[0], out[3]);
    assert_eq!(out[5], out[8]);
    // base at minus half the height, top at plus half
    assert_eq!(decode3(&out[0]).unwrap().1, -1.0);
    assert_eq!(decode3(&out[5]).unwrap().1, 1.0);
    // a vertical spoke joins the two loops
    let foot = decode3(&out[10]).unwrap();
    let top = decode3(&out[11]).unwrap();
    assert_eq!((foot.0, foot.2), (top.0, top.2));
    assert_eq!(foot.1, -1.0);
    assert_eq!(top.1, 1.0);
}

#[test]
fn mesh_lines_edge_coverage() {
    let points = vec![p3(0.0, 0.0, 0.0), p3(1.0, 0.0, 0.0), p3(0.0, 1.0, 0.0)];
    let lines = vec![(0, 1), (1, 2)];
    let shape = Shape::Lines(Lines { points: points.clone(), lines: lines.clone() });
    let out = outline(&shape, 1);
    assert_eq!(out.len(), 6);
    for (i, (a, b)) in lines.iter().enumerate() {
        assert_eq!(out[3 * i], Vertex3::Point(points[*a]));
        assert_eq!(out[3 * i + 1], Vertex3::Point(points[*b]));
        assert_eq!(out[3 * i + 2], Vertex3::Break);
    }
}

#[test]
fn flat_shape_embeds_in_z_plane() {
    let shape = Shape::Shape2d(Shape2d::Disc(Disc { radius: 1f32.to_bits() }));
    let out = outline(&shape, 2);
    assert_eq!(out.len(), 9);
    for w in &out {
        assert_eq!(decode3(w).unwrap().2, 0.0);
    }
}

#[test]
fn outline_deterministic_across_calls() {
    let shapes = vec![
        Shape::Sphere(Sphere { radius: 1.5f32.to_bits() }),
        Shape::Capsule(Capsule { radius: 1f32.to_bits(), segment_height: 3f32.to_bits() }),
        Shape::Cuboid(Cuboid { size: p3(1.0, 2.0, 3.0) }),
    ];
    for shape in &shapes {
        assert_eq!(outline(shape, 3), outline(shape, 3));
    }
}

#[test]
fn identity_step_keeps_the_seed() {
    // with the identity rotation step every circle sample stays at the
    // seed, which pins the rotation arithmetic down exactly
    let ident = Rotation { c: 1f32.to_bits(), s: 0f32.to_bits() };
    let shape = Shape::Sphere(Sphere { radius: 1f32.to_bits() });
    let out = outline_with_steps(&shape, 1, ident, ident);
    assert_eq!(out.len(), 17);
    let first = decode3(&out[0]).unwrap();
    assert!(close3(first, (-1.0, 0.0, 0.0)));
    for w in &out[0..5] {
        assert_eq!(decode3(w).unwrap(), first);
    }
    let second = decode3(&out[6]).unwrap();
    for w in &out[6..11] {
        assert_eq!(decode3(w).unwrap(), second);
    }
}

#[test]
fn default_outlineable_shape_is_a_unit_sphere() {
    let d = OutlineableShape::default();
    assert_eq!(d.density, 4);
    match &d.shape {
        Shape::Sphere(s) => assert_eq!(f32::from_bits(s.radius), 1.0),
        _ => panic!("default shape is not a sphere"),
    }
    let out = d.outline();
    assert_eq!(out.len(), 3 * 17 + 2);
}
