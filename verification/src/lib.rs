//! Parametric shape outline engine.
//!
//! A shape description (a disc, a cuboid, a height field, ...) together
//! with a resolution parameter ("density") is turned into an ordered
//! sequence of points tracing the shape's wireframe.  Disconnected line
//! groups are separated by an explicit break element.
//!
//! Coordinates are IEEE binary32 values carried as their bit patterns in
//! `u32`, so the verified logic can treat them as plain values; the
//! binary32 arithmetic itself is done by the outside math crate behind
//! the trusted wrappers of [`scalar`].

use vstd::prelude::*;

pub mod arc;
pub mod heightfield;
pub mod outline2;
pub mod outline3;
pub mod scalar;
pub mod shapes;

use crate::arc::{quarter_step, spoke_step, Rotation};
use crate::outline3::{arc3_fits, lemma_step_free, outline_with_steps, spec_outline3, step_free};
use crate::shapes::{shape_wf, Shape, Sphere, Vertex3};

verus! {

/// Traces the wireframe outline of a shape at the given density.
///
/// The two rotation steps are sampled from the outside math crate's
/// trigonometry, so for shapes with circular arcs the result is pinned
/// as a function of those samples; [`outline_with_steps`] pins it
/// completely.  A shape without arcs reads no step at all, and its
/// outline is pinned outright.
pub fn outline(shape: &Shape, density: usize) -> (v: Vec<Vertex3>)
    requires
        density >= 1,
        shape_wf(*shape),
        arc3_fits(*shape, density as nat),
    ensures
        exists|rq: Rotation, rs: Rotation|
            v@ == spec_outline3(*shape, density as nat, rq, rs),
        step_free(*shape) ==> forall|rq: Rotation, rs: Rotation|
            v@ == #[trigger] spec_outline3(*shape, density as nat, rq, rs),
{
    let rq = quarter_step(density);
    // Only the cone and the cylinder read the spoke step; sampling it
    // just for them keeps `density + 1` from overflowing elsewhere.
    let rs = match shape {
        Shape::Cone(_) => spoke_step(density),
        Shape::Cylinder(_) => spoke_step(density),
        _ => rq,
    };
    let v = outline_with_steps(shape, density, rq, rs);
    proof {
        if step_free(*shape) {
            assert forall|rq2: Rotation, rs2: Rotation|
                v@ == #[trigger] spec_outline3(*shape, density as nat, rq2, rs2) by {
                lemma_step_free(*shape, density as nat, rq, rs, rq2, rs2);
            }
        }
    }
    v
}

/// A shape together with the density its outline is traced at.
#[derive(Clone, Debug)]
pub struct OutlineableShape {
    pub shape: Shape,
    pub density: usize,
}

impl OutlineableShape {
    /// Traces the wireframe outline of the held shape.
    pub fn outline(&self) -> (v: Vec<Vertex3>)
        requires
            self.density >= 1,
            shape_wf(self.shape),
            arc3_fits(self.shape, self.density as nat),
        ensures
            exists|rq: Rotation, rs: Rotation|
                v@ == spec_outline3(self.shape, self.density as nat, rq, rs),
            step_free(self.shape) ==> forall|rq: Rotation, rs: Rotation|
                v@ == #[trigger] spec_outline3(self.shape, self.density as nat, rq, rs),
    {
        outline(&self.shape, self.density)
    }
}

impl Default for OutlineableShape {
    /// A unit sphere at density four (0x3F80_0000 is the bit pattern of
    /// the binary32 value one).
    fn default() -> (r: Self)
        ensures
            r.density == 4,
            (r.shape == Shape::Sphere(Sphere { radius: 0x3F80_0000 })),
    {
        OutlineableShape { shape: Shape::Sphere(Sphere { radius: 0x3F80_0000 }), density: 4 }
    }
}

} // verus!
