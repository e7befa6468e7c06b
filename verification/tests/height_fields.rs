use cool_shapes::shapes::{HeightField, Point2, Shape, Vertex3};
use cool_shapes::outline;
use cool_shapes::scalar::{BITS_FOUR, BITS_HALF, BITS_TAU, BITS_TWO};

fn grid(columns: Vec<Vec<f32>>, w: f32, d: f32) -> HeightField {
    HeightField {
        heights: columns
            .into_iter()
            .map(|col| col.into_iter().map(f32::to_bits).collect())
            .collect(),
        size: Point2 { x: w.to_bits(), y: d.to_bits() },
    }
}

fn decode3(w: &Vertex3) -> Option<(f32, f32, f32)> {
    match w {
        Vertex3::Point(p) => Some((
            f32::from_bits(p.x),
            f32::from_bits(p.y),
            f32::from_bits(p.z),
        )),
        Vertex3::Break => None,
    }
}

#[test]
fn two_by_two_snake_and_zigzag() {
    let shape = Shape::HeightField(grid(vec![vec![0.0, 1.0], vec![1.0, 0.0]], 1.0, 1.0));
    let out = outline(&shape, 1);
    let expect: Vec<Option<(f32, f32, f32)>> = vec![
        // snake pass: column zero upward, break, column one downward
        Some((-0.5, 0.0, -0.5)),
        Some((-0.5, 1.0, 0.5)),
        None,
        Some((0.5, 0.0, 0.5)),
        Some((0.5, 1.0, -0.5)),
        // the outer break
        None,
        // zig-zag pass in the same traversal order
        Some((-0.5, 0.0, -0.5)),
        Some((0.5, 1.0, -0.5)),
        Some((-0.5, 1.0, 0.5)),
        Some((0.5, 0.0, 0.5)),
    ];
    let got: Vec<Option<(f32, f32, f32)>> = out.iter().map(decode3).collect();
    assert_eq!(got, expect);
}

#[test]
fn snake_direction_alternates_every_column() {
    // three columns of two rows: up, down, up
    let shape = Shape::HeightField(grid(
        vec![vec![1.0, 2.0], vec![3.0, 4.0], vec![5.0, 6.0]],
        2.0,
        2.0,
    ));
    let out = outline(&shape, 1);
    let elevations: Vec<Option<f32>> = out[0..8].iter().map(|w| decode3(w).map(|p| p.1)).collect();
    assert_eq!(
        elevations,
        vec![
            Some(1.0),
            Some(2.0),
            None,
            Some(4.0),
            Some(3.0),
            None,
            Some(5.0),
            Some(6.0),
        ]
    );
}

#[test]
fn snake_visits_every_sample_once() {
    let cols = 4usize;
    let rows = 3usize;
    let heights: Vec<Vec<f32>> = (0..cols)
        .map(|x| (0..rows).map(|y| (x * rows + y) as f32).collect())
        .collect();
    let shape = Shape::HeightField(grid(heights, 3.0, 2.0));
    let out = outline(&shape, 1);
    // the snake pass ends right before the outer break that splits the
    // two passes; it holds every elevation exactly once
    let col_path_len = cols * (rows + 1) - 1;
    assert_eq!(out[col_path_len], Vertex3::Break);
    let mut seen: Vec<f32> = out[0..col_path_len]
        .iter()
        .filter_map(|w| decode3(w).map(|p| p.1))
        .collect();
    assert_eq!(seen.len(), cols * rows);
    seen.sort_by(|a, b| a.partial_cmp(b).unwrap());
    for (i, e) in seen.iter().enumerate() {
        assert_eq!(*e, i as f32);
    }
}

#[test]
fn single_column_grid() {
    let shape = Shape::HeightField(grid(vec![vec![1.0, 2.0, 3.0]], 1.0, 2.0));
    let out = outline(&shape, 1);
    // one column leg, then the outer break, then an empty zig-zag pass
    assert_eq!(out.len(), 4);
    assert_eq!(out[3], Vertex3::Break);
    let elevations: Vec<f32> = out[0..3].iter().map(|w| decode3(w).unwrap().1).collect();
    assert_eq!(elevations, vec![1.0, 2.0, 3.0]);
}

#[test]
fn single_row_grid() {
    let shape = Shape::HeightField(grid(vec![vec![1.0], vec![2.0], vec![3.0]], 2.0, 1.0));
    let out = outline(&shape, 1);
    // three one-point legs with breaks, the outer break, then two
    // zig-zag pairs
    assert_eq!(out.len(), 5 + 1 + 4);
    let got: Vec<Option<f32>> = out.iter().map(|w| decode3(w).map(|p| p.1)).collect();
    assert_eq!(
        got,
        vec![
            Some(1.0),
            None,
            Some(2.0),
            None,
            Some(3.0),
            None,
            Some(1.0),
            Some(2.0),
            Some(2.0),
            Some(3.0),
        ]
    );
}

#[test]
fn heightfield_world_coordinates() {
    let shape = Shape::HeightField(grid(
        vec![vec![0.0, 0.0], vec![0.0, 0.0], vec![0.0, 0.0]],
        4.0,
        2.0,
    ));
    let out = outline(&shape, 1);
    // the grid spans size symmetrically: x from -2 to 2, z from -1 to 1
    let p00 = decode3(&out[0]).unwrap();
    assert_eq!(p00, (-2.0, 0.0, -1.0));
    let p01 = decode3(&out[1]).unwrap();
    assert_eq!(p01, (-2.0, 0.0, 1.0));
    let p11 = decode3(&out[3]).unwrap();
    assert_eq!(p11, (0.0, 0.0, 1.0));
}

#[test]
fn heightfield_deterministic() {
    let shape = Shape::HeightField(grid(vec![vec![0.5, 1.5], vec![2.5, 3.5]], 1.0, 1.0));
    assert_eq!(outline(&shape, 2), outline(&shape, 2));
}

#[test]
fn scalar_constants_match_their_values() {
    assert_eq!(BITS_HALF, 0.5f32.to_bits());
    assert_eq!(BITS_TWO, 2.0f32.to_bits());
    assert_eq!(BITS_FOUR, 4.0f32.to_bits());
    assert_eq!(BITS_TAU, std::f32::consts::TAU.to_bits());
}
