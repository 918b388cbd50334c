//! A solid fill behind a child.

use vstd::prelude::*;
use crate::draw_target::{DrawOp, LayoutDrawTarget};
use crate::geometry::{Point, Rectangle, Size};
use crate::view::View;
use vstd::view::View as _;

verus! {

/// Fills the space it is given with one color, then lets its child draw over
/// it. It is exactly as large as its child.
pub struct Background<InnerView, Color> where InnerView: View<Color> {
    color: Color,
    inner_view: InnerView,
}

impl<InnerView, Color> Background<InnerView, Color> where InnerView: View<Color> {
    pub closed spec fn color(self) -> Color {
        self.color
    }

    pub closed spec fn inner_view(self) -> InnerView {
        self.inner_view
    }

    pub fn new(color: Color, inner_view: InnerView) -> (b: Self)
        ensures
            b.color() == color,
            b.inner_view() == inner_view,
    {
        Self { color, inner_view }
    }
}

impl<Color: Copy, InnerView> View<Color> for Background<InnerView, Color> where
    InnerView: View<Color>,
 {
    open spec fn can_measure(&self, available: Size) -> bool {
        self.inner_view().can_measure(available)
    }

    open spec fn measure(&self, available: Size) -> Size {
        self.inner_view().measure(available)
    }

    open spec fn can_render(&self, size: Size, offset: Point) -> bool {
        self.inner_view().can_render(size, offset)
    }

    open spec fn render(&self, size: Size, offset: Point) -> Seq<DrawOp<Color>> {
        seq![DrawOp::Fill { area: Rectangle { top_left: offset, size }, color: self.color() }]
            + self.inner_view().render(size, offset)
    }

    fn try_size(&self, available: Size) -> (s: Option<Size>) {
        self.inner_view.try_size(available)
    }

    fn size(&self, available_size: Size) -> (s: Size) {
        self.inner_view.size(available_size)
    }

    fn can_draw(&self, size: Size, offset: Point) -> (ok: bool) {
        self.inner_view.can_draw(size, offset)
    }

    fn draw(&self, size: Size, draw_target: &mut LayoutDrawTarget<'_, Color>) {
        let rectangle = Rectangle::new(draw_target.offset, size);
        draw_target.original_draw_target.ops.push(
            DrawOp::Fill { area: rectangle, color: self.color },
        );
        self.inner_view.draw(size, draw_target);
    }
}

/// A background is measured exactly as its child is.
pub proof fn lemma_background_passes_size_through<Color: Copy, V: View<Color>>(
    background: Background<V, Color>,
    available: Size,
)
    ensures
        background.can_measure(available) == background.inner_view().can_measure(available),
        background.measure(available) == background.inner_view().measure(available),
{
}

} // verus!
