//! The renderer: owner of the offscreen target, of the instance store and
//! of the composite pass. Each frame it decides whether the offscreen
//! target is drawn again before it is composited.

use vstd::prelude::*;

use crate::composite::{CompositeDraw, CompositeRenderer, OffscreenTarget, COMPOSITE_VERTEX_COUNT};
use crate::dirtiness::Dirtiness;
use crate::rectangle::Rectangle;
use crate::store::{
    DrawCall, RectangleId, RectangleRenderer, RenderError, StoreView, MAX_LIVE,
};

verus! {

/// Ceiling on the live instances of a renderer that asks for no other.
pub const MAX_INSTANCE_COUNT: u32 = 1024;

/// The pass that draws the rectangles into the offscreen target.
#[derive(Clone, Copy, Debug, PartialEq, Eq, Structural)]
pub struct OffscreenPass {
    /// The target that the pass draws into.
    pub target: OffscreenTarget,
    /// The draw inside the pass: none without live instances.
    pub draw: Option<DrawCall>,
}

/// What one frame does.
#[derive(Clone, Copy, Debug, PartialEq, Eq, Structural)]
pub struct Frame {
    /// The offscreen pass, where the frame has one.
    pub offscreen: Option<OffscreenPass>,
    /// The composite pass, which every frame has.
    pub composite: CompositeDraw,
}

/// What a renderer holds, as mathematics.
pub struct RendererView {
    pub target: OffscreenTarget,
    pub store: StoreView,
    /// Whether the offscreen target must be drawn again whatever the
    /// store says.
    pub needs_offscreen_redraw: bool,
}

impl RendererView {
    /// Whether the next frame draws the offscreen target again.
    pub open spec fn redraws_offscreen(self) -> bool {
        self.needs_offscreen_redraw || self.store.dirtiness != Dirtiness::Clean
    }

    /// Whether the next frame can be drawn: it cannot where it draws the
    /// offscreen target and the GPU buffer lacks room for the live
    /// instances.
    pub open spec fn frame_fits(self) -> bool {
        self.redraws_offscreen() ==> self.store.fits()
    }

    /// The renderer after the surface took a new size: a new target of
    /// that size, and a redraw owed.
    pub open spec fn resized(self, width: u32, height: u32) -> RendererView {
        RendererView {
            target: OffscreenTarget {
                generation: if self.target.generation == u64::MAX {
                    0
                } else {
                    (self.target.generation + 1) as u64
                },
                width,
                height,
            },
            needs_offscreen_redraw: true,
            ..self
        }
    }

    /// The composite draw of every frame.
    pub open spec fn composite(self) -> CompositeDraw {
        CompositeDraw {
            source: self.target,
            vertex_count: COMPOSITE_VERTEX_COUNT,
            instance_count: 1,
        }
    }

    /// What the next frame does, where it is drawn.
    pub open spec fn frame(self) -> Frame {
        Frame {
            offscreen: if self.redraws_offscreen() {
                Some(OffscreenPass { target: self.target, draw: self.store.draw_call() })
            } else {
                None
            },
            composite: self.composite(),
        }
    }

    /// The renderer after the next frame, where it is drawn.
    pub open spec fn rendered(self) -> RendererView {
        if self.redraws_offscreen() {
            RendererView {
                store: self.store.rendered(),
                needs_offscreen_redraw: false,
                ..self
            }
        } else {
            self
        }
    }

    /// Resize invalidation: the frame after a resize draws the offscreen
    /// target again, into the target of the new size, whatever the state
    /// of the store, and composites from that same target.
    pub proof fn lemma_resize_forces_redraw(self, width: u32, height: u32)
        ensures
            self.resized(width, height).frame().offscreen == Some(
                OffscreenPass {
                    target: self.resized(width, height).target,
                    draw: self.store.draw_call(),
                },
            ),
            self.resized(width, height).target.width == width,
            self.resized(width, height).target.height == height,
            self.resized(width, height).target != self.target,
            self.resized(width, height).frame().composite.source == self.resized(
                width,
                height,
            ).target,
            self.resized(width, height).store == self.store,
    {
    }

    /// A frame that finds the store clean and no redraw owed only
    /// composites, and changes nothing.
    pub proof fn lemma_idle_frame(self)
        requires
            !self.needs_offscreen_redraw,
            self.store.dirtiness == Dirtiness::Clean,
        ensures
            self.frame() == (Frame { offscreen: None, composite: self.composite() }),
            self.rendered() == self,
    {
    }

    /// After a frame that drew live instances, the next frame only
    /// composites.
    pub proof fn lemma_frame_settles(self)
        requires
            self.store.entries.len() > 0,
        ensures
            self.rendered().frame().offscreen == None::<OffscreenPass>,
            self.rendered().rendered() == self.rendered(),
    {
    }
}

/// The renderer.
pub struct Renderer {
    offscreen_target: OffscreenTarget,
    rectangle_renderer: RectangleRenderer,
    composite_renderer: CompositeRenderer,
    is_redraw_required: bool,
}

impl View for Renderer {
    type V = RendererView;

    closed spec fn view(&self) -> RendererView {
        RendererView {
            target: self.offscreen_target,
            store: self.rectangle_renderer@,
            needs_offscreen_redraw: self.is_redraw_required,
        }
    }
}

impl Renderer {
    /// The invariant that every operation keeps: the store is well formed
    /// and the composite pass samples the current target.
    pub open spec fn wf(&self) -> bool {
        &&& self@.store.wf()
        &&& self@.store.entries.len() <= MAX_LIVE
        &&& self.parts_wf()
    }

    /// The parts of the renderer are in step with each other.
    pub closed spec fn parts_wf(&self) -> bool {
        &&& self.rectangle_renderer.wf()
        &&& self.composite_renderer.bound_target() == self.offscreen_target
    }

    /// A renderer for a surface of the given size, with room for
    /// `max_instance_count` instances. Its first frame draws the offscreen
    /// target.
    pub fn new(width: u32, height: u32, max_instance_count: u32) -> (renderer: Self)
        ensures
            renderer.wf(),
            renderer@ == (RendererView {
                target: OffscreenTarget { generation: 0, width, height },
                store: StoreView {
                    entries: Seq::empty(),
                    staged: Seq::empty(),
                    dirtiness: Dirtiness::Clean,
                    max_instance_count: max_instance_count as nat,
                },
                needs_offscreen_redraw: true,
            }),
    {
        let offscreen_target = OffscreenTarget { generation: 0, width, height };
        let rectangle_renderer = RectangleRenderer::new(max_instance_count);
        let composite_renderer = CompositeRenderer::new(&offscreen_target);
        Renderer {
            offscreen_target,
            rectangle_renderer,
            composite_renderer,
            is_redraw_required: true,
        }
    }

    /// Replaces the offscreen target by one of the new size, binds the
    /// composite pass to it, and owes a redraw.
    pub fn resize(&mut self, width: u32, height: u32)
        requires
            old(self).wf(),
        ensures
            final(self).wf(),
            final(self)@ == old(self)@.resized(width, height),
    {
        let generation = if self.offscreen_target.generation == u64::MAX {
            0
        } else {
            self.offscreen_target.generation + 1
        };
        self.offscreen_target = OffscreenTarget { generation, width, height };
        self.composite_renderer.update_bind_group(&self.offscreen_target);
        self.is_redraw_required = true;
    }

    /// The current offscreen target.
    pub fn offscreen_target(&self) -> (target: OffscreenTarget)
        ensures
            target == self@.target,
    {
        self.offscreen_target
    }

    /// Whether a redraw of the offscreen target is owed whatever the store
    /// says.
    pub fn needs_offscreen_redraw(&self) -> (needed: bool)
        ensures
            needed == self@.needs_offscreen_redraw,
    {
        self.is_redraw_required
    }

    /// Number of live rectangles.
    pub fn live_count(&self) -> (count: usize)
        ensures
            count == self@.store.entries.len(),
    {
        self.rectangle_renderer.live_count()
    }

    /// Number of instances that the GPU buffer has room for.
    pub fn max_instance_count(&self) -> (count: u32)
        ensures
            count == self@.store.max_instance_count,
    {
        self.rectangle_renderer.max_instance_count()
    }

    /// The dirty state of the store.
    pub fn dirtiness(&self) -> (dirtiness: Dirtiness)
        ensures
            dirtiness == self@.store.dirtiness,
    {
        self.rectangle_renderer.dirtiness()
    }

    /// Size in bytes of the GPU buffer that takes the staged bytes.
    pub fn instance_buffer_size(&self) -> (size: u64)
        ensures
            size == self@.store.buffer_size(),
    {
        self.rectangle_renderer.instance_buffer_size()
    }

    /// The bytes staged for upload.
    pub fn staged_bytes(&self) -> (bytes: &[u8])
        ensures
            bytes@ == self@.store.staged,
    {
        self.rectangle_renderer.staged_bytes()
    }

    /// Hands out the rectangle under `id` for writing, if it is live. A
    /// rebuild of the staged bytes is owed from now on.
    pub fn get_mut_rectangle(&mut self, id: RectangleId) -> (found: Option<&mut Rectangle>)
        requires
            old(self).wf(),
        ensures
            final(self).wf(),
            found.is_some() == old(self)@.store.contains(id@),
            found.is_some() ==> *found.unwrap() == old(self)@.store.value_of(id@) && final(self)@
                == (RendererView {
                store: old(self)@.store.written(id@, *final(found.unwrap())),
                ..old(self)@
            }),
            found.is_none() ==> final(self)@ == (RendererView {
                store: old(self)@.store.escalated(),
                ..old(self)@
            }),
    {
        self.rectangle_renderer.get_mut(id)
    }

    /// Takes in one rectangle and hands out its identifier.
    pub fn add_rectangle(&mut self, instance: &Rectangle) -> (id: RectangleId)
        requires
            old(self).wf(),
            old(self)@.store.entries.len() < MAX_LIVE,
        ensures
            final(self).wf(),
            old(self)@.store.appended(final(self)@.store, id@, *instance),
            final(self)@.store.contains(id@),
            final(self)@.store.value_of(id@) == *instance,
            final(self)@ == (RendererView { store: final(self)@.store, ..old(self)@ }),
    {
        self.rectangle_renderer.add(instance)
    }

    /// Takes out the rectangle under `id`, if it is live, and hands it
    /// back.
    pub fn remove_rectangle(&mut self, id: RectangleId) -> (removed: Option<Rectangle>)
        requires
            old(self).wf(),
        ensures
            final(self).wf(),
            removed == (if old(self)@.store.contains(id@) {
                Some(old(self)@.store.value_of(id@))
            } else {
                None
            }),
            final(self)@ == (RendererView {
                store: old(self)@.store.removed(id@),
                ..old(self)@
            }),
    {
        self.rectangle_renderer.remove(id)
    }

    /// Decides the frame. The offscreen pass is part of it if a redraw is
    /// owed or the store is not clean; the composite pass always is. A
    /// frame whose offscreen pass the GPU buffer has no room for is refused
    /// and changes nothing.
    pub fn render(&mut self) -> (result: Result<Frame, RenderError>)
        requires
            old(self).wf(),
        ensures
            final(self).wf(),
            match result {
                Ok(frame) => {
                    &&& old(self)@.frame_fits()
                    &&& final(self)@ == old(self)@.rendered()
                    &&& frame == old(self)@.frame()
                    &&& frame.offscreen.is_some() && frame.offscreen.unwrap().draw.is_some() ==> {
                        let call = frame.offscreen.unwrap().draw.unwrap();
                        final(self)@.store.staged.len() == call.bytes_written && call.bytes_written
                            <= final(self)@.store.buffer_size()
                    }
                },
                Err(error) => {
                    &&& !old(self)@.frame_fits()
                    &&& error == RenderError::CapacityExceeded
                    &&& final(self)@ == old(self)@
                },
            },
    {
        let offscreen = if self.is_redraw_required || self.rectangle_renderer.is_redraw_required() {
            let draw = match self.rectangle_renderer.render() {
                Ok(draw) => draw,
                Err(error) => {
                    return Err(error);
                },
            };
            self.is_redraw_required = false;
            Some(OffscreenPass { target: self.offscreen_target, draw })
        } else {
            None
        };
        let composite = self.composite_renderer.render();
        Ok(Frame { offscreen, composite })
    }
}

} // verus!
