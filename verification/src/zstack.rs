//! An overlay stack: children on top of one another.

use vstd::prelude::*;
use core::marker::PhantomData;
use crate::alignment::{HorizontalAlignment, VerticalAlignment};
use crate::draw_target::{DrawOp, LayoutDrawTarget};
use crate::geometry::{
    largest_height, largest_width, lemma_totals_of_push, max_extent, Point, Size,
};
use crate::tuple::ViewTuple;
use crate::view::View;

verus! {

/// Lays its children out on top of one another, each placed in the stack by
/// the same two alignments and independently of the others. Later children
/// are drawn over earlier ones. Every child is measured against all the space
/// there is.
pub struct ZStack<Views, Color> where Views: ZViewTuple<Color> {
    horizontal_alignment: HorizontalAlignment,
    vertical_alignment: VerticalAlignment,
    views: Views,
    _marker: PhantomData<Color>,
}

/// The size of a stack of children of these sizes: the largest width and the
/// largest height among them.
pub open spec fn z_stack_size(sizes: Seq<Size>) -> Size {
    Size { width: largest_width(sizes), height: largest_height(sizes) }
}

/// The sizes of the children in order, each measured against all of
/// `available`.
pub open spec fn z_measured<Color, T: ViewTuple<Color>>(views: T, available: Size) -> Seq<Size> {
    Seq::new(views.count(), |i: int| views.measure_child(i, available))
}

/// The origin of the child at `index`, for a stack drawn at `available`
/// with its origin at `origin`.
pub open spec fn z_child_origin<Color, T: ViewTuple<Color>>(
    views: T,
    index: int,
    available: Size,
    horizontal_alignment: HorizontalAlignment,
    vertical_alignment: VerticalAlignment,
    origin: Point,
) -> Point {
    origin.shift(
        horizontal_alignment.offset_of(
            available.width,
            views.measure_child(index, available).width,
        ),
        vertical_alignment.offset_of(
            available.height,
            views.measure_child(index, available).height,
        ),
    )
}

/// Whether the child at `index` can be drawn.
pub open spec fn z_can_place<Color, T: ViewTuple<Color>>(
    views: T,
    index: int,
    available: Size,
    horizontal_alignment: HorizontalAlignment,
    vertical_alignment: VerticalAlignment,
    origin: Point,
) -> bool {
    let size = views.measure_child(index, available);
    &&& views.can_measure_child(index, available)
    &&& horizontal_alignment.has_offset(available.width, size.width)
    &&& vertical_alignment.has_offset(available.height, size.height)
    &&& origin.can_shift(
        horizontal_alignment.offset_of(available.width, size.width),
        vertical_alignment.offset_of(available.height, size.height),
    )
    &&& views.can_render_child(
        index,
        size,
        z_child_origin(views, index, available, horizontal_alignment, vertical_alignment, origin),
    )
}

/// What the first `n` children ask of the surface, in order, each drawn at
/// its own size.
pub open spec fn z_rendered<Color, T: ViewTuple<Color>>(
    views: T,
    n: nat,
    available: Size,
    horizontal_alignment: HorizontalAlignment,
    vertical_alignment: VerticalAlignment,
    origin: Point,
) -> Seq<DrawOp<Color>>
    decreases n,
{
    if n == 0 {
        Seq::empty()
    } else {
        z_rendered(
            views,
            (n - 1) as nat,
            available,
            horizontal_alignment,
            vertical_alignment,
            origin,
        ) + views.render_child(
            n - 1,
            views.measure_child(n - 1, available),
            z_child_origin(
                views,
                n - 1,
                available,
                horizontal_alignment,
                vertical_alignment,
                origin,
            ),
        )
    }
}

/// A fixed number of views of any types, as the children of an overlay
/// stack.
pub trait ZViewTuple<Color>: Sized {
    /// The sizes of the children in order, each measured against all of
    /// `available`.
    spec fn measured(&self, available: Size) -> Seq<Size>;

    /// Whether every child can be measured that way.
    spec fn can_measure_all(&self, available: Size) -> bool;

    /// What the children ask of the surface, in order, when the stack is
    /// drawn at `available` with its origin at `origin`.
    spec fn render_all(
        &self,
        available: Size,
        horizontal_alignment: HorizontalAlignment,
        vertical_alignment: VerticalAlignment,
        origin: Point,
    ) -> Seq<DrawOp<Color>>;

    /// Whether every child can be drawn that way.
    spec fn can_render_all(
        &self,
        available: Size,
        horizontal_alignment: HorizontalAlignment,
        vertical_alignment: VerticalAlignment,
        origin: Point,
    ) -> bool;

    /// Measures the stack, or finds that it cannot be measured.
    fn try_total_size(&self, available_size: Size) -> (s: Option<Size>)
        ensures
            s == if self.can_measure_all(available_size) {
                Some(z_stack_size(self.measured(available_size)))
            } else {
                None
            },
    ;

    /// Measures the stack.
    fn total_size(&self, available_size: Size) -> (s: Size)
        requires
            self.can_measure_all(available_size),
        ensures
            s == z_stack_size(self.measured(available_size)),
    ;

    /// Tests whether the children can be drawn.
    fn can_draw_all(
        &self,
        available_size: Size,
        horizontal_alignment: HorizontalAlignment,
        vertical_alignment: VerticalAlignment,
        offset: Point,
    ) -> (ok: bool)
        ensures
            ok == self.can_render_all(
                available_size,
                horizontal_alignment,
                vertical_alignment,
                offset,
            ),
    ;

    /// Draws the children in order.
    fn draw_all(
        &self,
        available_size: Size,
        horizontal_alignment: HorizontalAlignment,
        vertical_alignment: VerticalAlignment,
        draw_target: &mut LayoutDrawTarget<'_, Color>,
    )
        requires
            self.can_render_all(
                available_size,
                horizontal_alignment,
                vertical_alignment,
                old(draw_target).offset,
            ),
        ensures
            final(draw_target).extends(
                *old(draw_target),
                self.render_all(
                    available_size,
                    horizontal_alignment,
                    vertical_alignment,
                    old(draw_target).offset,
                ),
            ),
            *final(final(draw_target).original_draw_target)
                == *final(old(draw_target).original_draw_target),
    ;
}

impl<Color, T: ViewTuple<Color>> ZViewTuple<Color> for T {
    open spec fn measured(&self, available: Size) -> Seq<Size> {
        z_measured::<Color, T>(*self, available)
    }

    open spec fn can_measure_all(&self, available: Size) -> bool {
        forall|i: int| 0 <= i < self.count() ==> self.can_measure_child(i, available)
    }

    open spec fn render_all(
        &self,
        available: Size,
        horizontal_alignment: HorizontalAlignment,
        vertical_alignment: VerticalAlignment,
        origin: Point,
    ) -> Seq<DrawOp<Color>> {
        z_rendered::<Color, T>(
            *self,
            self.count(),
            available,
            horizontal_alignment,
            vertical_alignment,
            origin,
        )
    }

    open spec fn can_render_all(
        &self,
        available: Size,
        horizontal_alignment: HorizontalAlignment,
        vertical_alignment: VerticalAlignment,
        origin: Point,
    ) -> bool {
        forall|i: int|
            0 <= i < self.count() ==> z_can_place::<Color, T>(
                *self,
                i,
                available,
                horizontal_alignment,
                vertical_alignment,
                origin,
            )
    }

    fn try_total_size(&self, available_size: Size) -> (s: Option<Size>) {
        let n = self.len();
        let mut max_width: u32 = 0;
        let mut max_height: u32 = 0;
        let mut i: u32 = 0;
        let ghost sizes = z_measured::<Color, T>(*self, available_size);
        while i < n
            invariant
                i <= n,
                n == self.count(),
                sizes == z_measured::<Color, T>(*self, available_size),
                forall|j: int| 0 <= j < i ==> self.can_measure_child(j, available_size),
                max_width == largest_width(sizes.take(i as int)),
                max_height == largest_height(sizes.take(i as int)),
            decreases n - i,
        {
            let s = match self.try_child_size(i, available_size) {
                Some(s) => s,
                None => { return None; },
            };
            proof {
                lemma_totals_of_push(sizes.take(i as int), s);
                assert(sizes.take(i as int).push(s) =~= sizes.take(i + 1));
            }
            max_width = max_extent(max_width, s.width);
            max_height = max_extent(max_height, s.height);
            i = i + 1;
        }
        assert(sizes.take(n as int) =~= sizes);
        Some(Size { width: max_width, height: max_height })
    }

    fn total_size(&self, available_size: Size) -> (s: Size) {
        let n = self.len();
        let mut max_width: u32 = 0;
        let mut max_height: u32 = 0;
        let mut i: u32 = 0;
        let ghost sizes = z_measured::<Color, T>(*self, available_size);
        while i < n
            invariant
                i <= n,
                n == self.count(),
                sizes == z_measured::<Color, T>(*self, available_size),
                self.can_measure_all(available_size),
                max_width == largest_width(sizes.take(i as int)),
                max_height == largest_height(sizes.take(i as int)),
            decreases n - i,
        {
            let s = self.child_size(i, available_size);
            proof {
                lemma_totals_of_push(sizes.take(i as int), s);
                assert(sizes.take(i as int).push(s) =~= sizes.take(i + 1));
            }
            max_width = max_extent(max_width, s.width);
            max_height = max_extent(max_height, s.height);
            i = i + 1;
        }
        assert(sizes.take(n as int) =~= sizes);
        Size { width: max_width, height: max_height }
    }

    fn can_draw_all(
        &self,
        available_size: Size,
        horizontal_alignment: HorizontalAlignment,
        vertical_alignment: VerticalAlignment,
        offset: Point,
    ) -> (ok: bool) {
        let n = self.len();
        let mut i: u32 = 0;
        while i < n
            invariant
                i <= n,
                n == self.count(),
                forall|j: int|
                    0 <= j < i ==> z_can_place::<Color, T>(
                        *self,
                        j,
                        available_size,
                        horizontal_alignment,
                        vertical_alignment,
                        offset,
                    ),
            decreases n - i,
        {
            let ghost placeable = z_can_place::<Color, T>(
                *self,
                i as int,
                available_size,
                horizontal_alignment,
                vertical_alignment,
                offset,
            );
            let view_size = match self.try_child_size(i, available_size) {
                Some(s) => s,
                None => {
                    assert(!placeable);
                    return false;
                },
            };
            let x_offset = match horizontal_alignment.checked_offset(
                available_size.width,
                view_size.width,
            ) {
                Some(x) => x,
                None => {
                    assert(!placeable);
                    return false;
                },
            };
            let y_offset = match vertical_alignment.checked_offset(
                available_size.height,
                view_size.height,
            ) {
                Some(y) => y,
                None => {
                    assert(!placeable);
                    return false;
                },
            };
            if !offset.can_shifted(x_offset, y_offset) {
                assert(!placeable);
                return false;
            }
            if !self.can_draw_child(i, view_size, offset.shifted(x_offset, y_offset)) {
                assert(!placeable);
                return false;
            }
            assert(placeable);
            i = i + 1;
        }
        true
    }

    fn draw_all(
        &self,
        available_size: Size,
        horizontal_alignment: HorizontalAlignment,
        vertical_alignment: VerticalAlignment,
        draw_target: &mut LayoutDrawTarget<'_, Color>,
    ) {
        let n = self.len();
        let mut i: u32 = 0;
        while i < n
            invariant
                i <= n,
                n == self.count(),
                self.can_render_all(
                    available_size,
                    horizontal_alignment,
                    vertical_alignment,
                    old(draw_target).offset,
                ),
                draw_target.extends(
                    *old(draw_target),
                    z_rendered::<Color, T>(
                        *self,
                        i as nat,
                        available_size,
                        horizontal_alignment,
                        vertical_alignment,
                        old(draw_target).offset,
                    ),
                ),
                *final(draw_target.original_draw_target)
                    == *final(old(draw_target).original_draw_target),
            decreases n - i,
        {
            assert(z_can_place::<Color, T>(
                *self,
                i as int,
                available_size,
                horizontal_alignment,
                vertical_alignment,
                old(draw_target).offset,
            ));
            let view_size = self.child_size(i, available_size);

            let x_offset = horizontal_alignment.offset(available_size.width, view_size.width);
            let y_offset = vertical_alignment.offset(available_size.height, view_size.height);

            let mut child_target = LayoutDrawTarget {
                original_draw_target: draw_target.original_draw_target,
                offset: draw_target.offset.shifted(x_offset, y_offset),
            };

            self.draw_child(i, view_size, &mut child_target);
            i = i + 1;
        }
    }
}

impl<Views, Color> ZStack<Views, Color> where Views: ZViewTuple<Color> {
    pub closed spec fn horizontal_alignment(self) -> HorizontalAlignment {
        self.horizontal_alignment
    }

    pub closed spec fn vertical_alignment(self) -> VerticalAlignment {
        self.vertical_alignment
    }

    pub closed spec fn views(self) -> Views {
        self.views
    }

    pub fn new(
        horizontal_alignment: HorizontalAlignment,
        vertical_alignment: VerticalAlignment,
        views: Views,
    ) -> (stack: Self)
        ensures
            stack.horizontal_alignment() == horizontal_alignment,
            stack.vertical_alignment() == vertical_alignment,
            stack.views() == views,
    {
        Self { horizontal_alignment, vertical_alignment, views, _marker: PhantomData }
    }
}

impl<Views, Color> View<Color> for ZStack<Views, Color> where Views: ZViewTuple<Color> {
    open spec fn can_measure(&self, available: Size) -> bool {
        self.views().can_measure_all(available)
    }

    open spec fn measure(&self, available: Size) -> Size {
        z_stack_size(self.views().measured(available))
    }

    open spec fn can_render(&self, size: Size, offset: Point) -> bool {
        self.views().can_render_all(
            size,
            self.horizontal_alignment(),
            self.vertical_alignment(),
            offset,
        )
    }

    open spec fn render(&self, size: Size, offset: Point) -> Seq<DrawOp<Color>> {
        self.views().render_all(
            size,
            self.horizontal_alignment(),
            self.vertical_alignment(),
            offset,
        )
    }

    fn try_size(&self, available: Size) -> (s: Option<Size>) {
        self.views.try_total_size(available)
    }

    fn size(&self, available_size: Size) -> (s: Size) {
        self.views.total_size(available_size)
    }

    fn can_draw(&self, size: Size, offset: Point) -> (ok: bool) {
        self.views.can_draw_all(size, self.horizontal_alignment, self.vertical_alignment, offset)
    }

    fn draw(&self, size: Size, draw_target: &mut LayoutDrawTarget<'_, Color>) {
        self.views.draw_all(
            size,
            self.horizontal_alignment,
            self.vertical_alignment,
            draw_target,
        );
    }
}

/// An overlay stack is as wide as its widest child and as high as its
/// highest.
pub proof fn lemma_overlay_stack_size<Color, Views: ZViewTuple<Color>>(
    stack: ZStack<Views, Color>,
    available: Size,
)
    ensures
        stack.measure(available).width == largest_width(stack.views().measured(available)),
        stack.measure(available).height == largest_height(stack.views().measured(available)),
{
}

/// Every child of an overlay stack is measured against all of the available
/// size, whatever the other children are.
pub proof fn lemma_overlay_children_share_nothing<Color, T: ViewTuple<Color>>(
    views: T,
    available: Size,
    index: int,
)
    requires
        0 <= index < views.count(),
    ensures
        views.measured(available).len() == views.count(),
        views.measured(available)[index] == views.measure_child(index, available),
{
}

} // verus!
