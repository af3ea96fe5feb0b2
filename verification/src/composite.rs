//! The composite pass: one full-screen triangle that samples the offscreen
//! target onto the presentation target.

use vstd::prelude::*;

verus! {

/// Number of vertices of the full-screen triangle.
pub const COMPOSITE_VERTEX_COUNT: u32 = 3;

/// The offscreen color target: its size, and a number that tells one
/// target from the one it replaced.
#[derive(Clone, Copy, Debug, PartialEq, Eq, Structural)]
pub struct OffscreenTarget {
    pub generation: u64,
    pub width: u32,
    pub height: u32,
}

/// The draw of the composite pass.
#[derive(Clone, Copy, Debug, PartialEq, Eq, Structural)]
pub struct CompositeDraw {
    /// The target that the pass samples.
    pub source: OffscreenTarget,
    pub vertex_count: u32,
    pub instance_count: u32,
}

/// What the composite pass is bound to.
pub struct CompositeRenderer {
    bound: OffscreenTarget,
}

impl CompositeRenderer {
    /// The target that the pass samples.
    pub closed spec fn bound_target(&self) -> OffscreenTarget {
        self.bound
    }

    /// A pass bound to `offscreen_target`.
    pub fn new(offscreen_target: &OffscreenTarget) -> (pass: Self)
        ensures
            pass.bound_target() == *offscreen_target,
    {
        CompositeRenderer { bound: *offscreen_target }
    }

    /// Binds the pass to `offscreen_target`, which replaced the target it
    /// sampled so far.
    pub fn update_bind_group(&mut self, offscreen_target: &OffscreenTarget)
        ensures
            final(self).bound_target() == *offscreen_target,
    {
        self.bound = *offscreen_target;
    }

    /// The draw of this pass: one triangle, once, from the bound target.
    pub fn render(&self) -> (draw: CompositeDraw)
        ensures
            draw == (CompositeDraw {
                source: self.bound_target(),
                vertex_count: COMPOSITE_VERTEX_COUNT,
                instance_count: 1,
            }),
    {
        CompositeDraw {
            source: self.bound,
            vertex_count: COMPOSITE_VERTEX_COUNT,
            instance_count: 1,
        }
    }
}

} // verus!
