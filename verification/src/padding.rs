//! Insets on the four edges of a child.

use vstd::prelude::*;
use core::marker::PhantomData;
use crate::draw_target::{DrawOp, LayoutDrawTarget};
use crate::geometry::{signed, to_signed, Point, Size};
use crate::view::View;

verus! {

/// Gives its child the space that is left inside four insets, and is larger
/// than its child by those insets.
pub struct Padding<InnerView, Color> where InnerView: View<Color> {
    left: u32,
    top: u32,
    right: u32,
    bottom: u32,
    inner_view: InnerView,
    _marker: PhantomData<Color>,
}

impl<InnerView, Color> Padding<InnerView, Color> where InnerView: View<Color> {
    pub closed spec fn left_inset(self) -> u32 {
        self.left
    }

    pub closed spec fn top_inset(self) -> u32 {
        self.top
    }

    pub closed spec fn right_inset(self) -> u32 {
        self.right
    }

    pub closed spec fn bottom_inset(self) -> u32 {
        self.bottom
    }

    pub closed spec fn inner_view(self) -> InnerView {
        self.inner_view
    }

    /// Whether `space` has room for the insets.
    pub open spec fn has_room(self, space: Size) -> bool {
        &&& self.left_inset() + self.right_inset() <= space.width
        &&& self.top_inset() + self.bottom_inset() <= space.height
    }

    /// What is left of `space` inside the insets.
    pub open spec fn inside(self, space: Size) -> Size {
        Size {
            width: (space.width - (self.left_inset() + self.right_inset())) as u32,
            height: (space.height - (self.top_inset() + self.bottom_inset())) as u32,
        }
    }

    /// Where the child's origin lies when this view's origin is `offset`.
    pub open spec fn inner_origin(self, offset: Point) -> Point {
        offset.shift(signed(self.left_inset()), signed(self.top_inset()))
    }

    pub fn new(left: u32, top: u32, right: u32, bottom: u32, inner_view: InnerView) -> (p: Self)
        ensures
            p.left_inset() == left,
            p.top_inset() == top,
            p.right_inset() == right,
            p.bottom_inset() == bottom,
            p.inner_view() == inner_view,
    {
        Self { left, top, right, bottom, inner_view, _marker: PhantomData }
    }

    pub fn top(top: u32, inner_view: InnerView) -> (p: Self)
        ensures
            p.left_inset() == 0,
            p.top_inset() == top,
            p.right_inset() == 0,
            p.bottom_inset() == 0,
            p.inner_view() == inner_view,
    {
        Self::new(0, top, 0, 0, inner_view)
    }

    pub fn bottom(bottom: u32, inner_view: InnerView) -> (p: Self)
        ensures
            p.left_inset() == 0,
            p.top_inset() == 0,
            p.right_inset() == 0,
            p.bottom_inset() == bottom,
            p.inner_view() == inner_view,
    {
        Self::new(0, 0, 0, bottom, inner_view)
    }

    pub fn left(left: u32, inner_view: InnerView) -> (p: Self)
        ensures
            p.left_inset() == left,
            p.top_inset() == 0,
            p.right_inset() == 0,
            p.bottom_inset() == 0,
            p.inner_view() == inner_view,
    {
        Self::new(left, 0, 0, 0, inner_view)
    }

    pub fn right(right: u32, inner_view: InnerView) -> (p: Self)
        ensures
            p.left_inset() == 0,
            p.top_inset() == 0,
            p.right_inset() == right,
            p.bottom_inset() == 0,
            p.inner_view() == inner_view,
    {
        Self::new(0, 0, right, 0, inner_view)
    }

    pub fn horizontal(horizontal: u32, inner_view: InnerView) -> (p: Self)
        ensures
            p.left_inset() == horizontal,
            p.top_inset() == 0,
            p.right_inset() == horizontal,
            p.bottom_inset() == 0,
            p.inner_view() == inner_view,
    {
        Self::new(horizontal, 0, horizontal, 0, inner_view)
    }

    pub fn vertical(vertical: u32, inner_view: InnerView) -> (p: Self)
        ensures
            p.left_inset() == 0,
            p.top_inset() == vertical,
            p.right_inset() == 0,
            p.bottom_inset() == vertical,
            p.inner_view() == inner_view,
    {
        Self::new(0, vertical, 0, vertical, inner_view)
    }

    pub fn all(all: u32, inner_view: InnerView) -> (p: Self)
        ensures
            p.left_inset() == all,
            p.top_inset() == all,
            p.right_inset() == all,
            p.bottom_inset() == all,
            p.inner_view() == inner_view,
    {
        Self::new(all, all, all, all, inner_view)
    }

    /// Computes [`Self::inside`], or `None` where [`Self::has_room`] fails.
    fn checked_inside(&self, space: Size) -> (inner: Option<Size>)
        ensures
            inner == if self.has_room(space) {
                Some(self.inside(space))
            } else {
                None
            },
    {
        let across = match self.left.checked_add(self.right) {
            Some(v) => v,
            None => { return None; },
        };
        let along = match self.top.checked_add(self.bottom) {
            Some(v) => v,
            None => { return None; },
        };
        if across > space.width || along > space.height {
            return None;
        }
        Some(Size::new(space.width - across, space.height - along))
    }
}

impl<Color, InnerView> View<Color> for Padding<InnerView, Color> where InnerView: View<Color> {
    open spec fn can_measure(&self, available: Size) -> bool {
        &&& self.has_room(available)
        &&& self.inner_view().can_measure(self.inside(available))
        &&& self.inner_view().measure(self.inside(available)).width + self.left_inset()
            + self.right_inset() <= u32::MAX
        &&& self.inner_view().measure(self.inside(available)).height + self.top_inset()
            + self.bottom_inset() <= u32::MAX
    }

    open spec fn measure(&self, available: Size) -> Size {
        let content = self.inner_view().measure(self.inside(available));
        Size {
            width: (content.width + self.left_inset() + self.right_inset()) as u32,
            height: (content.height + self.top_inset() + self.bottom_inset()) as u32,
        }
    }

    open spec fn can_render(&self, size: Size, offset: Point) -> bool {
        &&& self.has_room(size)
        &&& offset.can_shift(signed(self.left_inset()), signed(self.top_inset()))
        &&& self.inner_view().can_render(self.inside(size), self.inner_origin(offset))
    }

    open spec fn render(&self, size: Size, offset: Point) -> Seq<DrawOp<Color>> {
        self.inner_view().render(self.inside(size), self.inner_origin(offset))
    }

    fn try_size(&self, available: Size) -> (s: Option<Size>) {
        let content_available_size = match self.checked_inside(available) {
            Some(inner) => inner,
            None => { return None; },
        };
        let content_size = match self.inner_view.try_size(content_available_size) {
            Some(content) => content,
            None => { return None; },
        };
        let width = match content_size.width.checked_add(self.left) {
            Some(w) => w.checked_add(self.right),
            None => None,
        };
        let height = match content_size.height.checked_add(self.top) {
            Some(h) => h.checked_add(self.bottom),
            None => None,
        };
        match (width, height) {
            (Some(w), Some(h)) => Some(Size::new(w, h)),
            _ => None,
        }
    }

    fn size(&self, available_size: Size) -> (s: Size) {
        let content_available_size = Size::new(
            available_size.width - (self.left + self.right),
            available_size.height - (self.top + self.bottom),
        );

        let content_size = self.inner_view.size(content_available_size);

        Size::new(
            content_size.width + self.left + self.right,
            content_size.height + self.top + self.bottom,
        )
    }

    fn can_draw(&self, size: Size, offset: Point) -> (ok: bool) {
        let content_size = match self.checked_inside(size) {
            Some(inner) => inner,
            None => { return false; },
        };
        let dx = to_signed(self.left);
        let dy = to_signed(self.top);
        if !offset.can_shifted(dx, dy) {
            return false;
        }
        self.inner_view.can_draw(content_size, offset.shifted(dx, dy))
    }

    fn draw(&self, size: Size, draw_target: &mut LayoutDrawTarget<'_, Color>) {
        let content_size = Size::new(
            size.width - (self.left + self.right),
            size.height - (self.top + self.bottom),
        );

        let mut offset_draw_target = LayoutDrawTarget {
            original_draw_target: draw_target.original_draw_target,
            offset: draw_target.offset.shifted(to_signed(self.left), to_signed(self.top)),
        };

        self.inner_view.draw(content_size, &mut offset_draw_target);
    }
}

/// A padded view is larger than its child by its insets, the child being
/// measured against what the insets leave of the available size.
pub proof fn lemma_padding_adds_its_insets<Color, V: View<Color>>(
    padding: Padding<V, Color>,
    available: Size,
)
    requires
        padding.can_measure(available),
    ensures
        padding.measure(available).width == padding.inner_view().measure(
            padding.inside(available),
        ).width + padding.left_inset() + padding.right_inset(),
        padding.measure(available).height == padding.inner_view().measure(
            padding.inside(available),
        ).height + padding.top_inset() + padding.bottom_inset(),
        padding.inside(available).width == available.width - (padding.left_inset()
            + padding.right_inset()),
        padding.inside(available).height == available.height - (padding.top_inset()
            + padding.bottom_inset()),
{
}

/// Where the width of the child does not depend on the height it is offered,
/// the width of a padded view is the width of its child against the
/// available size narrowed by the left and right insets alone, and those
/// insets.
pub proof fn lemma_padding_width_by_narrowing<Color, V: View<Color>>(
    padding: Padding<V, Color>,
    available: Size,
)
    requires
        padding.can_measure(available),
        padding.inner_view().measure(
            Size { width: padding.inside(available).width, height: available.height },
        ).width == padding.inner_view().measure(padding.inside(available)).width,
    ensures
        padding.measure(available).width == padding.inner_view().measure(
            Size {
                width: (available.width - (padding.left_inset() + padding.right_inset())) as u32,
                height: available.height,
            },
        ).width + padding.left_inset() + padding.right_inset(),
{
}

/// Where the height of the child does not depend on the width it is offered,
/// the height of a padded view is the height of its child against the
/// available size shortened by the top and bottom insets alone, and those
/// insets.
pub proof fn lemma_padding_height_by_shortening<Color, V: View<Color>>(
    padding: Padding<V, Color>,
    available: Size,
)
    requires
        padding.can_measure(available),
        padding.inner_view().measure(
            Size { width: available.width, height: padding.inside(available).height },
        ).height == padding.inner_view().measure(padding.inside(available)).height,
    ensures
        padding.measure(available).height == padding.inner_view().measure(
            Size {
                width: available.width,
                height: (available.height - (padding.top_inset() + padding.bottom_inset())) as u32,
            },
        ).height + padding.top_inset() + padding.bottom_inset(),
{
}

} // verus!
