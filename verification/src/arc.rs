//! Circle sampling.
//!
//! A circle is approximated by repeatedly applying one fixed rotation
//! step to a seed point.  The step is the cosine/sine pair of the step
//! angle; applying it is plain binary32 arithmetic and is verified, while
//! sampling the pair itself goes through the outside math crate's
//! trigonometry and promises nothing (see [`crate::scalar`]).

use vstd::prelude::*;

use crate::scalar::{
    add32, count32, diff_bits, div32, mul32, prod_bits, rotation32, sub32, sum_bits, BITS_FOUR,
    BITS_TAU,
};
use crate::shapes::Point2;

verus! {

/// A rotation step: the cosine and sine of the step angle, as binary32
/// bit patterns.
#[derive(Clone, Copy, PartialEq, Eq, Structural, Debug)]
pub struct Rotation {
    pub c: u32,
    pub s: u32,
}

/// One application of the rotation step: the usual rotation matrix
/// product, carried out in binary32 arithmetic.
pub open spec fn spec_rotate(r: Rotation, p: Point2) -> Point2 {
    Point2 {
        x: diff_bits(prod_bits(r.c, p.x), prod_bits(r.s, p.y)),
        y: sum_bits(prod_bits(r.s, p.x), prod_bits(r.c, p.y)),
    }
}

/// The seed point rotated `n` times.
pub open spec fn spec_rotate_n(r: Rotation, seed: Point2, n: nat) -> Point2
    decreases n,
{
    if n == 0 {
        seed
    } else {
        spec_rotate(r, spec_rotate_n(r, seed, (n - 1) as nat))
    }
}

/// The first `n` points of the circle sampled from `seed` by step `r`.
pub open spec fn arc_seq(r: Rotation, seed: Point2, n: nat) -> Seq<Point2> {
    Seq::new(n, |i: int| spec_rotate_n(r, seed, i as nat))
}

/// Applies the rotation step once.
pub fn rotate(r: Rotation, p: Point2) -> (q: Point2)
    ensures
        q == spec_rotate(r, p),
{
    Point2 {
        x: sub32(mul32(r.c, p.x), mul32(r.s, p.y)),
        y: add32(mul32(r.s, p.x), mul32(r.c, p.y)),
    }
}

/// Collects the first `n` points of the circle sampled from `seed`.
pub fn arc_points(r: Rotation, seed: Point2, n: usize) -> (v: Vec<Point2>)
    ensures
        v@ == arc_seq(r, seed, n as nat),
{
    let mut v: Vec<Point2> = Vec::new();
    let mut cur: Point2 = seed;
    let mut i: usize = 0;
    while i < n
        invariant
            0 <= i <= n,
            v@.len() == i as nat,
            cur == spec_rotate_n(r, seed, i as nat),
            forall|j: int| 0 <= j < i ==> v@[j] == spec_rotate_n(r, seed, j as nat),
        decreases n - i,
    {
        v.push(cur);
        cur = rotate(r, cur);
        i = i + 1;
    }
    assert(v@ =~= arc_seq(r, seed, n as nat));
    v
}

/// Samples the rotation step used for quarter-circle arcs: one `density`-th
/// of a quarter turn.  The cosine/sine bits come from the outside math
/// crate and are not pinned down.
pub fn quarter_step(density: usize) -> Rotation
    requires
        density >= 1,
{
    let angle = div32(div32(BITS_TAU, BITS_FOUR), count32(density));
    let (c, s) = rotation32(angle);
    Rotation { c, s }
}

/// Samples the coarser rotation step used to pick spoke directions: one
/// `density + 1`-th of a full turn.
pub fn spoke_step(density: usize) -> Rotation
    requires
        density < usize::MAX,
{
    let angle = div32(BITS_TAU, count32(density + 1));
    let (c, s) = rotation32(angle);
    Rotation { c, s }
}

} // verus!
