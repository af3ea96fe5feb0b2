//! The block: a styled box that is first sized and styled, then placed,
//! and from then on stands for one rectangle of a renderer.

use vstd::prelude::*;

use crate::rectangle::Rectangle;
use crate::renderer::{Renderer, RendererView};
use crate::store::{RectangleId, MAX_LIVE};

verus! {

/// Bits of the 32-bit float 1.0.
pub const ONE: u32 = 0x3F80_0000;

/// State of a block that has no place yet: it owns no rectangle.
#[derive(Clone, Copy, Debug)]
pub struct Unpositioned;

/// State of a block that was placed: it owns one rectangle.
#[derive(Clone, Copy, Debug)]
pub struct Positioned {
    rectangle_id: RectangleId,
    position: [u32; 2],
}

/// Where a box stands on screen, worked out from its position, its size
/// and the view projection: the clip-space matrix and the half extent.
#[derive(Clone, Copy, Debug)]
pub struct Transform {
    pub mvp: [[u32; 4]; 4],
    pub half_size: [u32; 2],
}

/// The look of a box, as mathematics.
pub struct StyleView {
    pub fill_color: [u32; 4],
    pub border_color: [u32; 4],
    pub corner_radii: [u32; 4],
    pub border_size: u32,
    pub shadow_color: [u32; 4],
    pub shadow_offset: [u32; 2],
    pub shadow_blur: u32,
    pub shadow_spread: u32,
}

/// The look of a box: colors, border, corner rounding and drop shadow.
#[derive(Clone, Copy, Debug, PartialEq, Eq)]
pub struct BlockStyle {
    fill_color: [u32; 4],
    border_color: [u32; 4],
    corner_radii: [u32; 4],
    border_size: u32,
    shadow_color: [u32; 4],
    shadow_offset: [u32; 2],
    shadow_blur: u32,
    shadow_spread: u32,
}

impl View for BlockStyle {
    type V = StyleView;

    closed spec fn view(&self) -> StyleView {
        StyleView {
            fill_color: self.fill_color,
            border_color: self.border_color,
            corner_radii: self.corner_radii,
            border_size: self.border_size,
            shadow_color: self.shadow_color,
            shadow_offset: self.shadow_offset,
            shadow_blur: self.shadow_blur,
            shadow_spread: self.shadow_spread,
        }
    }
}

impl StyleView {
    /// The style of a builder that was told nothing: an opaque white fill,
    /// no border, no rounding, no shadow.
    pub open spec fn initial() -> StyleView {
        StyleView {
            fill_color: [ONE, ONE, ONE, ONE],
            border_color: [0u32, 0u32, 0u32, 0u32],
            corner_radii: [0u32, 0u32, 0u32, 0u32],
            border_size: 0,
            shadow_color: [0u32, 0u32, 0u32, 0u32],
            shadow_offset: [0u32, 0u32],
            shadow_blur: 0,
            shadow_spread: 0,
        }
    }
}

impl Rectangle {
    /// The rectangle with this transform and its look untouched.
    pub open spec fn with_geometry(self, transform: Transform) -> Rectangle {
        Rectangle { mvp: transform.mvp, half_size: transform.half_size, ..self }
    }

    /// The rectangle with this look and its transform untouched.
    pub open spec fn with_style(self, style: StyleView) -> Rectangle {
        Rectangle {
            fill_color: style.fill_color,
            border_color: style.border_color,
            corner_radii: style.corner_radii,
            shadow_color: style.shadow_color,
            border_size: style.border_size,
            shadow_spread: style.shadow_spread,
            shadow_offset: style.shadow_offset,
            shadow_blur: style.shadow_blur,
            ..self
        }
    }

    /// The rectangle of a box with this transform and this look.
    pub open spec fn of(transform: Transform, style: StyleView) -> Rectangle {
        Rectangle {
            mvp: transform.mvp,
            fill_color: style.fill_color,
            border_color: style.border_color,
            corner_radii: style.corner_radii,
            shadow_color: style.shadow_color,
            half_size: transform.half_size,
            border_size: style.border_size,
            shadow_spread: style.shadow_spread,
            shadow_offset: style.shadow_offset,
            shadow_blur: style.shadow_blur,
        }
    }
}

/// Collects the parts of a style; what is not told keeps its initial
/// value.
#[derive(Clone, Copy, Debug)]
pub struct BlockStyleBuilder {
    style: BlockStyle,
}

impl View for BlockStyleBuilder {
    type V = StyleView;

    closed spec fn view(&self) -> StyleView {
        self.style@
    }
}

impl BlockStyleBuilder {
    pub fn fill_color(self, value: [u32; 4]) -> (builder: Self)
        ensures
            builder@ == (StyleView { fill_color: value, ..self@ }),
    {
        BlockStyleBuilder { style: BlockStyle { fill_color: value, ..self.style } }
    }

    pub fn border_color(self, value: [u32; 4]) -> (builder: Self)
        ensures
            builder@ == (StyleView { border_color: value, ..self@ }),
    {
        BlockStyleBuilder { style: BlockStyle { border_color: value, ..self.style } }
    }

    pub fn corner_radii(self, value: [u32; 4]) -> (builder: Self)
        ensures
            builder@ == (StyleView { corner_radii: value, ..self@ }),
    {
        BlockStyleBuilder { style: BlockStyle { corner_radii: value, ..self.style } }
    }

    pub fn border_size(self, value: u32) -> (builder: Self)
        ensures
            builder@ == (StyleView { border_size: value, ..self@ }),
    {
        BlockStyleBuilder { style: BlockStyle { border_size: value, ..self.style } }
    }

    pub fn shadow_color(self, value: [u32; 4]) -> (builder: Self)
        ensures
            builder@ == (StyleView { shadow_color: value, ..self@ }),
    {
        BlockStyleBuilder { style: BlockStyle { shadow_color: value, ..self.style } }
    }

    pub fn shadow_offset(self, value: [u32; 2]) -> (builder: Self)
        ensures
            builder@ == (StyleView { shadow_offset: value, ..self@ }),
    {
        BlockStyleBuilder { style: BlockStyle { shadow_offset: value, ..self.style } }
    }

    pub fn shadow_blur(self, value: u32) -> (builder: Self)
        ensures
            builder@ == (StyleView { shadow_blur: value, ..self@ }),
    {
        BlockStyleBuilder { style: BlockStyle { shadow_blur: value, ..self.style } }
    }

    pub fn shadow_spread(self, value: u32) -> (builder: Self)
        ensures
            builder@ == (StyleView { shadow_spread: value, ..self@ }),
    {
        BlockStyleBuilder { style: BlockStyle { shadow_spread: value, ..self.style } }
    }

    /// The style that was collected.
    pub fn build(self) -> (style: BlockStyle)
        ensures
            style@ == self@,
    {
        self.style
    }
}

impl BlockStyle {
    /// A builder that was told nothing yet.
    pub fn builder() -> (builder: BlockStyleBuilder)
        ensures
            builder@ == StyleView::initial(),
    {
        BlockStyleBuilder {
            style: BlockStyle {
                fill_color: [ONE, ONE, ONE, ONE],
                border_color: [0, 0, 0, 0],
                corner_radii: [0, 0, 0, 0],
                border_size: 0,
                shadow_color: [0, 0, 0, 0],
                shadow_offset: [0, 0],
                shadow_blur: 0,
                shadow_spread: 0,
            },
        }
    }

    pub fn fill_color(&self) -> (value: [u32; 4])
        ensures
            value == self@.fill_color,
    {
        self.fill_color
    }

    pub fn border_color(&self) -> (value: [u32; 4])
        ensures
            value == self@.border_color,
    {
        self.border_color
    }

    pub fn corner_radii(&self) -> (value: [u32; 4])
        ensures
            value == self@.corner_radii,
    {
        self.corner_radii
    }

    pub fn border_size(&self) -> (value: u32)
        ensures
            value == self@.border_size,
    {
        self.border_size
    }

    pub fn shadow_color(&self) -> (value: [u32; 4])
        ensures
            value == self@.shadow_color,
    {
        self.shadow_color
    }

    pub fn shadow_offset(&self) -> (value: [u32; 2])
        ensures
            value == self@.shadow_offset,
    {
        self.shadow_offset
    }

    pub fn shadow_blur(&self) -> (value: u32)
        ensures
            value == self@.shadow_blur,
    {
        self.shadow_blur
    }

    pub fn shadow_spread(&self) -> (value: u32)
        ensures
            value == self@.shadow_spread,
    {
        self.shadow_spread
    }
}

/// The rectangle of a box with this transform and this look.
pub fn build_rectangle(transform: &Transform, block_style: &BlockStyle) -> (rectangle: Rectangle)
    ensures
        rectangle == Rectangle::of(*transform, block_style@),
{
    Rectangle {
        mvp: transform.mvp,
        fill_color: block_style.fill_color,
        border_color: block_style.border_color,
        corner_radii: block_style.corner_radii,
        shadow_color: block_style.shadow_color,
        half_size: transform.half_size,
        border_size: block_style.border_size,
        shadow_spread: block_style.shadow_spread,
        shadow_offset: block_style.shadow_offset,
        shadow_blur: block_style.shadow_blur,
    }
}

/// A styled box. Without a place it can only be sized and styled; to
/// place it consumes it and gives a block that writes to a renderer.
pub struct Block<State = Unpositioned> {
    state: State,
    style: BlockStyle,
    size: [u32; 2],
}

/// A block without a place, as mathematics.
pub struct UnplacedView {
    pub size: [u32; 2],
    pub style: StyleView,
}

/// A placed block, as mathematics.
pub struct PlacedView {
    /// Key of the rectangle that the block owns.
    pub id: u64,
    pub position: [u32; 2],
    pub size: [u32; 2],
    pub style: StyleView,
}

impl View for Block<Unpositioned> {
    type V = UnplacedView;

    closed spec fn view(&self) -> UnplacedView {
        UnplacedView { size: self.size, style: self.style@ }
    }
}

impl View for Block<Positioned> {
    type V = PlacedView;

    closed spec fn view(&self) -> PlacedView {
        PlacedView {
            id: self.state.rectangle_id@,
            position: self.state.position,
            size: self.size,
            style: self.style@,
        }
    }
}

impl Block<Unpositioned> {
    /// A block of this size and look, without a place.
    pub fn new(size: [u32; 2], style: BlockStyle) -> (block: Self)
        ensures
            block@ == (UnplacedView { size, style: style@ }),
    {
        Block { state: Unpositioned, style, size }
    }

    /// Places the block: one rectangle with the block's look and the given
    /// transform is registered with the renderer, and the placed block
    /// owns it.
    pub fn make_positioned(
        self,
        position: [u32; 2],
        transform: &Transform,
        renderer: &mut Renderer,
    ) -> (block: Block<Positioned>)
        requires
            old(renderer).wf(),
            old(renderer)@.store.entries.len() < MAX_LIVE,
        ensures
            final(renderer).wf(),
            block@ == (PlacedView {
                id: block@.id,
                position,
                size: self@.size,
                style: self@.style,
            }),
            old(renderer)@.store.appended(
                final(renderer)@.store,
                block@.id,
                Rectangle::of(*transform, self@.style),
            ),
            final(renderer)@.store.contains(block@.id),
            final(renderer)@.store.value_of(block@.id) == Rectangle::of(*transform, self@.style),
            final(renderer)@ == (RendererView { store: final(renderer)@.store, ..old(renderer)@ }),
    {
        Block::<Positioned>::new(position, self.size, self.style, transform, renderer)
    }

    /// The size of the box.
    pub fn size(&self) -> (size: [u32; 2])
        ensures
            size == self@.size,
    {
        self.size
    }

    /// The look of the box.
    pub fn style(&self) -> (style: &BlockStyle)
        ensures
            style@ == self@.style,
    {
        &self.style
    }

    /// Gives the box another size.
    pub fn set_size(&mut self, size: [u32; 2])
        ensures
            final(self)@ == (UnplacedView { size, ..old(self)@ }),
    {
        self.size = size;
    }

    /// Gives the box another look.
    pub fn set_style(&mut self, style: BlockStyle)
        ensures
            final(self)@ == (UnplacedView { style: style@, ..old(self)@ }),
    {
        self.style = style;
    }
}

impl Block<Positioned> {
    /// A placed block: one rectangle with the given look and transform is
    /// registered with the renderer, and the block owns it.
    pub fn new(
        position: [u32; 2],
        size: [u32; 2],
        style: BlockStyle,
        transform: &Transform,
        renderer: &mut Renderer,
    ) -> (block: Self)
        requires
            old(renderer).wf(),
            old(renderer)@.store.entries.len() < MAX_LIVE,
        ensures
            final(renderer).wf(),
            block@ == (PlacedView { id: block@.id, position, size, style: style@ }),
            old(renderer)@.store.appended(
                final(renderer)@.store,
                block@.id,
                Rectangle::of(*transform, style@),
            ),
            final(renderer)@.store.contains(block@.id),
            final(renderer)@.store.value_of(block@.id) == Rectangle::of(*transform, style@),
            final(renderer)@ == (RendererView { store: final(renderer)@.store, ..old(renderer)@ }),
    {
        let rectangle = build_rectangle(transform, &style);
        let rectangle_id = renderer.add_rectangle(&rectangle);
        let state = Positioned { rectangle_id, position };
        Block { state, style, size }
    }

    /// The identifier of the rectangle that the block owns.
    pub fn rectangle_id(&self) -> (id: RectangleId)
        ensures
            id@ == self@.id,
    {
        self.state.rectangle_id
    }

    /// The position of the box.
    pub fn position(&self) -> (position: [u32; 2])
        ensures
            position == self@.position,
    {
        self.state.position
    }

    /// The size of the box.
    pub fn size(&self) -> (size: [u32; 2])
        ensures
            size == self@.size,
    {
        self.size
    }

    /// The look of the box.
    pub fn style(&self) -> (style: &BlockStyle)
        ensures
            style@ == self@.style,
    {
        &self.style
    }

    /// Gives the box another size. The rectangle takes the transform and
    /// keeps its look.
    pub fn set_size(&mut self, size: [u32; 2], transform: &Transform, renderer: &mut Renderer)
        requires
            old(renderer).wf(),
        ensures
            final(renderer).wf(),
            final(self)@ == (PlacedView { size, ..old(self)@ }),
            final(renderer)@ == old(renderer)@.with_geometry(old(self)@.id, *transform),
    {
        self.write_geometry(transform, renderer);
        self.size = size;
    }

    /// Gives the box another position. The rectangle takes the transform
    /// and keeps its look.
    pub fn set_position(
        &mut self,
        position: [u32; 2],
        transform: &Transform,
        renderer: &mut Renderer,
    )
        requires
            old(renderer).wf(),
        ensures
            final(renderer).wf(),
            final(self)@ == (PlacedView { position, ..old(self)@ }),
            final(renderer)@ == old(renderer)@.with_geometry(old(self)@.id, *transform),
    {
        self.write_geometry(transform, renderer);
        self.state.position = position;
    }

    /// Gives the box another size and position. The rectangle takes the
    /// transform and keeps its look.
    pub fn set_size_and_position(
        &mut self,
        size: [u32; 2],
        position: [u32; 2],
        transform: &Transform,
        renderer: &mut Renderer,
    )
        requires
            old(renderer).wf(),
        ensures
            final(renderer).wf(),
            final(self)@ == (PlacedView { size, position, ..old(self)@ }),
            final(renderer)@ == old(renderer)@.with_geometry(old(self)@.id, *transform),
    {
        self.write_geometry(transform, renderer);
        self.state.position = position;
        self.size = size;
    }

    /// Gives the box another look. The rectangle takes the look and keeps
    /// its transform.
    pub fn set_style(&mut self, style: BlockStyle, renderer: &mut Renderer)
        requires
            old(renderer).wf(),
        ensures
            final(renderer).wf(),
            final(self)@ == (PlacedView { style: style@, ..old(self)@ }),
            final(renderer)@ == old(renderer)@.with_style(old(self)@.id, style@),
    {
        match renderer.get_mut_rectangle(self.state.rectangle_id) {
            Some(rectangle) => {
                rectangle.fill_color = style.fill_color;
                rectangle.border_color = style.border_color;
                rectangle.corner_radii = style.corner_radii;
                rectangle.shadow_color = style.shadow_color;
                rectangle.border_size = style.border_size;
                rectangle.shadow_spread = style.shadow_spread;
                rectangle.shadow_offset = style.shadow_offset;
                rectangle.shadow_blur = style.shadow_blur;
            },
            None => {},
        }
        self.style = style;
    }

    /// Takes the block's rectangle out of the renderer. Where the
    /// rectangle was live the renderer holds exactly one instance less
    /// afterwards, and the identifier names nothing.
    pub fn destroy(&self, renderer: &mut Renderer)
        requires
            old(renderer).wf(),
        ensures
            final(renderer).wf(),
            final(renderer)@ == (RendererView {
                store: old(renderer)@.store.removed(self@.id),
                ..old(renderer)@
            }),
            !final(renderer)@.store.contains(self@.id),
            final(renderer)@.store.entries.len() == old(renderer)@.store.entries.len() - (if old(
                renderer,
            )@.store.contains(self@.id) {
                1int
            } else {
                0int
            }),
    {
        proof {
            if renderer@.store.contains(self@.id) {
                renderer@.store.lemma_without(self@.id);
            }
        }
        renderer.remove_rectangle(self.state.rectangle_id);
    }

    fn write_geometry(&self, transform: &Transform, renderer: &mut Renderer)
        requires
            old(renderer).wf(),
        ensures
            final(renderer).wf(),
            final(renderer)@ == old(renderer)@.with_geometry(self@.id, *transform),
    {
        match renderer.get_mut_rectangle(self.state.rectangle_id) {
            Some(rectangle) => {
                rectangle.mvp = transform.mvp;
                rectangle.half_size = transform.half_size;
            },
            None => {},
        }
    }
}

impl RendererView {
    /// The renderer after a block wrote a transform to the rectangle under
    /// `key`: the look of that rectangle stays, a rebuild is owed, and a
    /// key that names nothing changes nothing else.
    pub open spec fn with_geometry(self, key: u64, transform: Transform) -> RendererView {
        RendererView {
            store: self.store.written(key, self.store.value_of(key).with_geometry(transform)),
            ..self
        }
    }

    /// The renderer after a block wrote a look to the rectangle under
    /// `key`: the transform of that rectangle stays, a rebuild is owed,
    /// and a key that names nothing changes nothing else.
    pub open spec fn with_style(self, key: u64, style: StyleView) -> RendererView {
        RendererView {
            store: self.store.written(key, self.store.value_of(key).with_style(style)),
            ..self
        }
    }
}

} // verus!
