//! Height-field wireframes.
//!
//! The grid of elevation samples is drawn as one boustrophedon ("snake")
//! pass over the columns — up the first column, down the second, and so
//! on — followed by a zig-zag pass that adds, for every adjacent column
//! pair and in the same traversal order, the connecting horizontal
//! segments.  The column pass visits every grid coordinate exactly once.

use vstd::prelude::*;

use crate::scalar::{
    bits_of_count, count32, diff_bits, div32, mul32, prod_bits, quot_bits, sub32, BITS_TWO,
};
use crate::shapes::{grid_wf, HeightField, Point3, Vertex3};

verus! {

/// Number of grid columns.
pub open spec fn hf_cols(h: HeightField) -> nat {
    h.heights@.len()
}

/// Number of grid rows (samples per column).
pub open spec fn hf_rows(h: HeightField) -> nat {
    h.heights@[0]@.len()
}

/// World position of the grid sample at column `x`, row `y`: the grid
/// spans `size` across the two horizontal axes, and the sample is the
/// elevation.
pub open spec fn hf_point(h: HeightField, x: int, y: int) -> Point3 {
    let sx = quot_bits(h.size.x, bits_of_count((hf_cols(h) - 1) as usize));
    let sz = quot_bits(h.size.y, bits_of_count((hf_rows(h) - 1) as usize));
    Point3 {
        x: diff_bits(prod_bits(sx, bits_of_count(x as usize)), quot_bits(h.size.x, BITS_TWO)),
        y: h.heights@[x]@[y],
        z: diff_bits(prod_bits(sz, bits_of_count(y as usize)), quot_bits(h.size.y, BITS_TWO)),
    }
}

/// Row visited at step `j` of a column: even columns walk upward, odd
/// columns downward.
pub open spec fn snake_y(x: int, j: int, rows: int) -> int {
    if x % 2 == 0 {
        j
    } else {
        rows - 1 - j
    }
}

/// The column-`x` leg of the snake pass, in traversal order.
pub open spec fn hf_col_run(h: HeightField, x: int) -> Seq<Vertex3> {
    Seq::new(hf_rows(h), |j: int| Vertex3::Point(hf_point(h, x, snake_y(x, j, hf_rows(h) as int))))
}

/// The first `c` column legs, one break between consecutive legs.
pub open spec fn hf_col_path(h: HeightField, c: nat) -> Seq<Vertex3>
    decreases c,
{
    if c == 0 {
        Seq::empty()
    } else if c == 1 {
        hf_col_run(h, 0)
    } else {
        hf_col_path(h, (c - 1) as nat) + seq![Vertex3::Break] + hf_col_run(h, c - 1)
    }
}

/// The zig-zag leg between columns `x` and `x + 1`: for each traversal
/// step of column `x`, the sample there and the sample beside it.
pub open spec fn hf_zig_run(h: HeightField, x: int) -> Seq<Vertex3> {
    Seq::new(
        2 * hf_rows(h),
        |k: int| Vertex3::Point(hf_point(h, x + k % 2, snake_y(x, k / 2, hf_rows(h) as int))),
    )
}

/// The zig-zag legs of the first `n` column pairs, with no break: the
/// zig-zag is one connected strip.
pub open spec fn hf_zig_path(h: HeightField, n: nat) -> Seq<Vertex3>
    decreases n,
{
    if n == 0 {
        Seq::empty()
    } else {
        hf_zig_path(h, (n - 1) as nat) + hf_zig_run(h, n - 1)
    }
}

/// The full height-field outline: the snake pass over all columns, one
/// break, then the zig-zag pass over all column pairs.
pub open spec fn spec_heightfield(h: HeightField) -> Seq<Vertex3> {
    hf_col_path(h, hf_cols(h)) + seq![Vertex3::Break] + hf_zig_path(h, (hf_cols(h) - 1) as nat)
}

/// World position of one grid sample.
fn hf_point_at(h: &HeightField, x: usize, y: usize) -> (p: Point3)
    requires
        grid_wf(h.heights@),
        x < hf_cols(*h),
        y < hf_rows(*h),
    ensures
        p == hf_point(*h, x as int, y as int),
{
    let sx = div32(h.size.x, count32(h.heights.len() - 1));
    let rows = h.heights[0].len();
    let sz = div32(h.size.y, count32(rows - 1));
    let col = &h.heights[x];
    Point3 {
        x: sub32(mul32(sx, count32(x)), div32(h.size.x, BITS_TWO)),
        y: col[y],
        z: sub32(mul32(sz, count32(y)), div32(h.size.y, BITS_TWO)),
    }
}

/// Row visited at step `j` of column `x`.
fn snake_row(x: usize, j: usize, rows: usize) -> (y: usize)
    requires
        j < rows,
    ensures
        y == snake_y(x as int, j as int, rows as int),
        y < rows,
{
    if x % 2 == 0 {
        j
    } else {
        rows - 1 - j
    }
}

/// Traces the height-field outline; the result is exactly
/// [`spec_heightfield`].
pub fn heightfield_vertices(h: &HeightField) -> (v: Vec<Vertex3>)
    requires
        grid_wf(h.heights@),
    ensures
        v@ == spec_heightfield(*h),
{
    let cols = h.heights.len();
    let rows = h.heights[0].len();
    let mut v: Vec<Vertex3> = Vec::new();
    let mut x: usize = 0;
    while x < cols
        invariant
            grid_wf(h.heights@),
            cols == hf_cols(*h),
            rows == hf_rows(*h),
            0 <= x <= cols,
            v@ == hf_col_path(*h, x as nat),
        decreases cols - x,
    {
        if x > 0 {
            v.push(Vertex3::Break);
        }
        let ghost before = v@;
        let mut j: usize = 0;
        while j < rows
            invariant
                grid_wf(h.heights@),
                cols == hf_cols(*h),
                rows == hf_rows(*h),
                0 <= x < cols,
                0 <= j <= rows,
                v@ == before + hf_col_run(*h, x as int).take(j as int),
            decreases rows - j,
        {
            let y = snake_row(x, j, rows);
            v.push(Vertex3::Point(hf_point_at(h, x, y)));
            proof {
                let run = hf_col_run(*h, x as int);
                assert(run[j as int] == Vertex3::Point(
                    hf_point(*h, x as int, snake_y(x as int, j as int, rows as int)),
                ));
                assert(v@ =~= before + run.take(j + 1));
            }
            j = j + 1;
        }
        proof {
            let run = hf_col_run(*h, x as int);
            assert(run.take(rows as int) =~= run);
            assert(v@ =~= hf_col_path(*h, (x + 1) as nat));
        }
        x = x + 1;
    }
    v.push(Vertex3::Break);
    let ghost mid = v@;
    let mut p: usize = 0;
    while p + 1 < cols
        invariant
            grid_wf(h.heights@),
            cols == hf_cols(*h),
            rows == hf_rows(*h),
            0 <= p <= cols,
            p + 1 <= cols,
            v@ == mid + hf_zig_path(*h, p as nat),
        decreases cols - p,
    {
        let ghost before = v@;
        let mut j: usize = 0;
        while j < rows
            invariant
                grid_wf(h.heights@),
                cols == hf_cols(*h),
                rows == hf_rows(*h),
                0 <= p,
                p + 1 < cols,
                0 <= j <= rows,
                v@ == before + hf_zig_run(*h, p as int).take(2 * j),
            decreases rows - j,
        {
            let y = snake_row(p, j, rows);
            v.push(Vertex3::Point(hf_point_at(h, p, y)));
            v.push(Vertex3::Point(hf_point_at(h, p + 1, y)));
            proof {
                let run = hf_zig_run(*h, p as int);
                assert(run[2 * j] == Vertex3::Point(hf_point(*h, p as int, snake_y(p as int, j as int, rows as int))));
                assert(run[2 * j + 1] == Vertex3::Point(
                    hf_point(*h, p + 1, snake_y(p as int, j as int, rows as int)),
                ));
                assert(v@ =~= before + run.take(2 * (j + 1)));
            }
            j = j + 1;
        }
        proof {
            let run = hf_zig_run(*h, p as int);
            assert(run.take(2 * rows) =~= run);
            assert(v@ =~= mid + hf_zig_path(*h, (p + 1) as nat));
        }
        p = p + 1;
    }
    proof {
        assert(v@ =~= spec_heightfield(*h));
    }
    v
}

/// What stands at position `p` of the snake pass: a break at the end of
/// every column but the last, otherwise the sample of column
/// `p / (rows + 1)` at traversal step `p % (rows + 1)`.
pub open spec fn col_element(h: HeightField, p: int) -> Vertex3 {
    let m = hf_rows(h) + 1;
    if p % (m as int) == m - 1 {
        Vertex3::Break
    } else {
        Vertex3::Point(
            hf_point(h, p / (m as int), snake_y(p / (m as int), p % (m as int), hf_rows(h) as int)),
        )
    }
}

/// Pins the first `c` column legs of the snake pass element by element.
pub proof fn lemma_col_path_pinned(h: HeightField, c: nat)
    requires
        grid_wf(h.heights@),
    ensures
        c == 0 ==> hf_col_path(h, c).len() == 0,
        c >= 1 ==> hf_col_path(h, c).len() == c * (hf_rows(h) + 1) - 1,
        forall|p: int|
            0 <= p < hf_col_path(h, c).len() ==> #[trigger] hf_col_path(h, c)[p] == col_element(
                h,
                p,
            ),
    decreases c,
{
    let rows = hf_rows(h) as int;
    let m = rows + 1;
    if c == 0 {
    } else if c == 1 {
        assert forall|p: int| 0 <= p < hf_col_path(h, c).len() implies #[trigger] hf_col_path(
            h,
            c,
        )[p] == col_element(h, p) by {
            vstd::arithmetic::div_mod::lemma_fundamental_div_mod_converse_div(p, m, 0, p);
            vstd::arithmetic::div_mod::lemma_fundamental_div_mod_converse_mod(p, m, 0, p);
        }
    } else {
        lemma_col_path_pinned(h, (c - 1) as nat);
        let prev = hf_col_path(h, (c - 1) as nat);
        let run = hf_col_run(h, c - 1);
        assert(hf_col_path(h, c) == prev + seq![Vertex3::Break] + run);
        assert(prev.len() == (c - 1) * m - 1) by (nonlinear_arith)
            requires
                c >= 2,
                m >= 2,
                prev.len() == (c - 1) * (rows + 1) - 1,
                m == rows + 1,
        ;
        assert(c * m - 1 == (c - 1) * m - 1 + 1 + rows) by (nonlinear_arith)
            requires
                m == rows + 1,
        ;
        assert forall|p: int| 0 <= p < hf_col_path(h, c).len() implies #[trigger] hf_col_path(
            h,
            c,
        )[p] == col_element(h, p) by {
            if p < prev.len() {
                assert(hf_col_path(h, c)[p] == prev[p]);
            } else if p == prev.len() {
                assert(hf_col_path(h, c)[p] == Vertex3::Break);
                assert(p == (c - 2) * m + (m - 1)) by (nonlinear_arith)
                    requires
                        p == (c - 1) * m - 1,
                        m >= 2,
                ;
                vstd::arithmetic::div_mod::lemma_fundamental_div_mod_converse_mod(
                    p,
                    m,
                    c - 2,
                    m - 1,
                );
            } else {
                let j = p - prev.len() - 1;
                assert(hf_col_path(h, c)[p] == run[j]);
                assert(run[j] == Vertex3::Point(hf_point(h, c - 1, snake_y(c - 1, j, rows))));
                assert(p == (c - 1) * m + j) by (nonlinear_arith)
                    requires
                        p == (c - 1) * m - 1 + 1 + j,
                ;
                vstd::arithmetic::div_mod::lemma_fundamental_div_mod_converse_div(p, m, c - 1, j);
                vstd::arithmetic::div_mod::lemma_fundamental_div_mod_converse_mod(p, m, c - 1, j);
            }
        }
    }
}

/// What stands at position `q` of the zig-zag pass: the pass follows
/// the snake traversal of column `q / (2·rows)` at step `(q % (2·rows)) / 2`,
/// alternating between that column and the next.
pub open spec fn zig_element(h: HeightField, q: int) -> Vertex3 {
    let t = 2 * hf_rows(h) as int;
    Vertex3::Point(
        hf_point(
            h,
            q / t + (q % t) % 2,
            snake_y(q / t, (q % t) / 2, hf_rows(h) as int),
        ),
    )
}

/// Pins the first `n` zig-zag legs element by element: the zig-zag pass
/// walks the column pairs in the same traversal order as the snake
/// pass, with no break of its own.
pub proof fn lemma_zig_path_pinned(h: HeightField, n: nat)
    requires
        grid_wf(h.heights@),
    ensures
        hf_zig_path(h, n).len() == n * 2 * hf_rows(h),
        forall|q: int|
            0 <= q < hf_zig_path(h, n).len() ==> #[trigger] hf_zig_path(h, n)[q] == zig_element(
                h,
                q,
            ),
    decreases n,
{
    let rows = hf_rows(h) as int;
    let t = 2 * rows;
    if n == 0 {
        assert(hf_zig_path(h, n).len() == 0);
        assert(n * 2 * hf_rows(h) == 0) by (nonlinear_arith)
            requires
                n == 0,
        ;
    } else {
        lemma_zig_path_pinned(h, (n - 1) as nat);
        let prev = hf_zig_path(h, (n - 1) as nat);
        let run = hf_zig_run(h, n - 1);
        assert(hf_zig_path(h, n) == prev + run);
        assert(prev.len() == (n - 1) * t) by (nonlinear_arith)
            requires
                prev.len() == (n - 1) * 2 * rows,
                t == 2 * rows,
        ;
        assert(hf_zig_path(h, n).len() == (n - 1) * t + t);
        assert((n - 1) * t + t == n * (2 * rows)) by (nonlinear_arith)
            requires
                t == 2 * rows,
        ;
        assert(n * (2 * rows) == n * 2 * rows) by (nonlinear_arith);
        assert(hf_zig_path(h, n).len() == n * 2 * hf_rows(h));
        assert forall|q: int| 0 <= q < hf_zig_path(h, n).len() implies #[trigger] hf_zig_path(
            h,
            n,
        )[q] == zig_element(h, q) by {
            if q < prev.len() {
                assert(hf_zig_path(h, n)[q] == prev[q]);
            } else {
                let k = q - prev.len();
                assert(hf_zig_path(h, n)[q] == run[k]);
                assert(run[k] == Vertex3::Point(
                    hf_point(h, (n - 1) + k % 2, snake_y(n - 1, k / 2, rows)),
                ));
                vstd::arithmetic::div_mod::lemma_fundamental_div_mod_converse_div(q, t, n - 1, k);
                vstd::arithmetic::div_mod::lemma_fundamental_div_mod_converse_mod(q, t, n - 1, k);
            }
        }
    }
}

/// The position of grid coordinate `(x, y)` in the snake pass.
pub open spec fn snake_slot(h: HeightField, x: int, y: int) -> int {
    let rows = hf_rows(h) as int;
    x * (rows + 1) + (if x % 2 == 0 {
        y
    } else {
        rows - 1 - y
    })
}

/// The snake pass visits every grid coordinate exactly once: the full
/// column path has one sample per coordinate plus one break between
/// consecutive columns; coordinate `(x, y)` stands exactly at
/// [`snake_slot`], which maps distinct coordinates to distinct
/// positions; and the direction strictly alternates — even columns walk
/// their rows upward, odd columns downward — starting upward in column
/// zero.
pub proof fn lemma_heightfield_snake(h: HeightField)
    requires
        grid_wf(h.heights@),
    ensures
        hf_col_path(h, hf_cols(h)).len() == hf_cols(h) * (hf_rows(h) + 1) - 1,
        forall|p: int|
            0 <= p < hf_col_path(h, hf_cols(h)).len() ==> #[trigger] hf_col_path(
                h,
                hf_cols(h),
            )[p] == col_element(h, p),
        forall|x: int, y: int|
            0 <= x < hf_cols(h) && 0 <= y < hf_rows(h) ==> hf_col_path(h, hf_cols(h))[
                #[trigger] snake_slot(h, x, y)] == Vertex3::Point(hf_point(h, x, y)),
        forall|x1: int, y1: int, x2: int, y2: int|
            0 <= x1 < hf_cols(h) && 0 <= y1 < hf_rows(h) && 0 <= x2 < hf_cols(h) && 0 <= y2
                < hf_rows(h) && #[trigger] snake_slot(h, x1, y1) == #[trigger] snake_slot(
                h,
                x2,
                y2,
            ) ==> x1 == x2 && y1 == y2,
{
    let rows = hf_rows(h) as int;
    let cols = hf_cols(h) as int;
    let m = rows + 1;
    lemma_col_path_pinned(h, hf_cols(h));
    assert forall|x: int, y: int| 0 <= x < cols && 0 <= y < rows implies hf_col_path(
        h,
        hf_cols(h),
    )[#[trigger] snake_slot(h, x, y)] == Vertex3::Point(hf_point(h, x, y)) by {
        let j = if x % 2 == 0 {
            y
        } else {
            rows - 1 - y
        };
        let p = snake_slot(h, x, y);
        assert(p == x * m + j);
        vstd::arithmetic::div_mod::lemma_fundamental_div_mod_converse_div(p, m, x, j);
        vstd::arithmetic::div_mod::lemma_fundamental_div_mod_converse_mod(p, m, x, j);
        assert(p < cols * m - 1) by (nonlinear_arith)
            requires
                p == x * m + j,
                0 <= x < cols,
                0 <= j < rows,
                m == rows + 1,
        ;
        assert(snake_y(x, j, rows) == y);
    }
    assert forall|x1: int, y1: int, x2: int, y2: int|
        0 <= x1 < cols && 0 <= y1 < rows && 0 <= x2 < cols && 0 <= y2 < rows
            && #[trigger] snake_slot(h, x1, y1) == #[trigger] snake_slot(
            h,
            x2,
            y2,
        ) implies x1 == x2 && y1 == y2 by {
        let j1 = if x1 % 2 == 0 {
            y1
        } else {
            rows - 1 - y1
        };
        let j2 = if x2 % 2 == 0 {
            y2
        } else {
            rows - 1 - y2
        };
        let p = snake_slot(h, x1, y1);
        vstd::arithmetic::div_mod::lemma_fundamental_div_mod_converse_div(p, m, x1, j1);
        vstd::arithmetic::div_mod::lemma_fundamental_div_mod_converse_mod(p, m, x1, j1);
        vstd::arithmetic::div_mod::lemma_fundamental_div_mod_converse_div(p, m, x2, j2);
        vstd::arithmetic::div_mod::lemma_fundamental_div_mod_converse_mod(p, m, x2, j2);
    }
}

} // verus!
