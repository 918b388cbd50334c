//! A horizontal stack: children side by side, from left to right.

use vstd::prelude::*;
use core::marker::PhantomData;
use crate::alignment::VerticalAlignment;
use crate::draw_target::{DrawOp, LayoutDrawTarget};
use crate::geometry::{
    gaps, largest_height, lemma_totals_are_natural, lemma_totals_of_push, max_extent, signed,
    sum_of_widths, to_signed, Point, Size,
};
use crate::tuple::ViewTuple;
use crate::view::View;

verus! {

/// Lays its children out side by side, from left to right,
/// `spacing` apart, each placed across the stack by one alignment. Earlier
/// children come first where space is short: each child is measured against
/// the width that the children before it have left.
pub struct HStack<Views, Color> where Views: HViewTuple<Color> {
    spacing: u32,
    vertical_alignment: VerticalAlignment,
    views: Views,
    _marker: PhantomData<Color>,
}

/// The space that the next child is measured against, once the children
/// before it have been measured as `measured`.
pub open spec fn h_remaining(available: Size, measured: Seq<Size>) -> Size {
    Size { width: (available.width - sum_of_widths(measured)) as u32, height: available.height }
}

/// The sizes of the first `n` children in order, each measured against the
/// width that the children before it have left of `available`.
pub open spec fn h_measured<Color, T: ViewTuple<Color>>(
    views: T,
    available: Size,
    n: nat,
) -> Seq<Size>
    decreases n,
{
    if n == 0 {
        Seq::empty()
    } else {
        let before = h_measured::<Color, T>(views, available, (n - 1) as nat);
        before.push(views.measure_child(n - 1, h_remaining(available, before)))
    }
}

/// Whether the child at `index` can be measured in its turn: the children
/// before it have left some width, it can be measured against that, and the
/// sum of the widths stays an extent.
pub open spec fn h_admits<Color, T: ViewTuple<Color>>(
    views: T,
    available: Size,
    index: int,
) -> bool {
    let before = h_measured::<Color, T>(views, available, index as nat);
    &&& sum_of_widths(before) <= available.width
    &&& views.can_measure_child(index, h_remaining(available, before))
    &&& sum_of_widths(before) + views.measure_child(
        index,
        h_remaining(available, before),
    ).width <= u32::MAX
}

/// Whether a stack of children of these sizes has a size: the widths and
/// the spacing between them add up to an extent.
pub open spec fn h_stack_fits(sizes: Seq<Size>, spacing: u32) -> bool {
    sum_of_widths(sizes) + gaps(spacing, sizes.len()) <= u32::MAX
}

/// The size of a stack of children of these sizes: along the stack the sum
/// of the widths and the spacing between them, across it the largest
/// height.
pub open spec fn h_stack_size(sizes: Seq<Size>, spacing: u32) -> Size {
    Size {
        width: (sum_of_widths(sizes) + gaps(spacing, sizes.len())) as u32,
        height: largest_height(sizes),
    }
}

/// A drawing pass part way through: the sizes of the children drawn so far,
/// how far along the stack the next child starts, and what was asked of the
/// surface.
pub struct HPlaced<Color> {
    pub measured: Seq<Size>,
    pub advance: int,
    pub ops: Seq<DrawOp<Color>>,
}

/// The size at which the child at `index` is drawn next: its size against
/// the width that the children before it have left.
pub open spec fn h_child_size<Color, T: ViewTuple<Color>>(
    placed: HPlaced<Color>,
    views: T,
    index: int,
    available: Size,
) -> Size {
    views.measure_child(index, h_remaining(available, placed.measured))
}

/// How far across the stack the child at `index` is set in.
pub open spec fn h_child_inset<Color, T: ViewTuple<Color>>(
    placed: HPlaced<Color>,
    views: T,
    index: int,
    available: Size,
    alignment: VerticalAlignment,
) -> int {
    alignment.inset_of(available.height, h_child_size(placed, views, index, available).height)
}

/// The origin of the child at `index`, for a stack whose origin is `origin`.
pub open spec fn h_child_origin<Color, T: ViewTuple<Color>>(
    placed: HPlaced<Color>,
    views: T,
    index: int,
    available: Size,
    alignment: VerticalAlignment,
    origin: Point,
) -> Point {
    origin.shift(
        signed(placed.advance as u32),
        signed(h_child_inset(placed, views, index, available, alignment) as u32),
    )
}

/// Whether the child at `index` can be drawn as the next step of the pass
/// `placed`.
pub open spec fn h_can_step<Color, T: ViewTuple<Color>>(
    placed: HPlaced<Color>,
    views: T,
    index: int,
    available: Size,
    spacing: u32,
    alignment: VerticalAlignment,
    origin: Point,
) -> bool {
    let size = h_child_size(placed, views, index, available);
    &&& sum_of_widths(placed.measured) <= available.width
    &&& views.can_measure_child(index, h_remaining(available, placed.measured))
    &&& alignment.has_inset(available.height, size.height)
    &&& origin.can_shift(
        signed(placed.advance as u32),
        signed(h_child_inset(placed, views, index, available, alignment) as u32),
    )
    &&& views.can_render_child(
        index,
        size,
        h_child_origin(placed, views, index, available, alignment, origin),
    )
    &&& placed.advance + size.width + spacing <= u32::MAX
}

/// The pass `placed` after the child at `index` has been drawn as its next
/// step: the child is drawn at its own size, and the one after it starts
/// behind it and the spacing.
pub open spec fn h_step<Color, T: ViewTuple<Color>>(
    placed: HPlaced<Color>,
    views: T,
    index: int,
    available: Size,
    spacing: u32,
    alignment: VerticalAlignment,
    origin: Point,
) -> HPlaced<Color> {
    let size = h_child_size(placed, views, index, available);
    HPlaced {
        measured: placed.measured.push(size),
        advance: placed.advance + size.width + spacing,
        ops: placed.ops + views.render_child(
            index,
            size,
            h_child_origin(placed, views, index, available, alignment, origin),
        ),
    }
}

/// The drawing pass after its first `n` children.
pub open spec fn h_placed<Color, T: ViewTuple<Color>>(
    views: T,
    n: nat,
    available: Size,
    spacing: u32,
    alignment: VerticalAlignment,
    origin: Point,
) -> HPlaced<Color>
    decreases n,
{
    if n == 0 {
        HPlaced { measured: Seq::empty(), advance: 0, ops: Seq::empty() }
    } else {
        h_step(
            h_placed(views, (n - 1) as nat, available, spacing, alignment, origin),
            views,
            n - 1,
            available,
            spacing,
            alignment,
            origin,
        )
    }
}

/// Whether the child at `index` can be drawn in its turn, after the children
/// before it.
pub open spec fn h_can_place<Color, T: ViewTuple<Color>>(
    views: T,
    index: int,
    available: Size,
    spacing: u32,
    alignment: VerticalAlignment,
    origin: Point,
) -> bool {
    h_can_step(
        h_placed(views, index as nat, available, spacing, alignment, origin),
        views,
        index,
        available,
        spacing,
        alignment,
        origin,
    )
}

/// A fixed number of views of any types, as the children of a horizontal
/// stack.
pub trait HViewTuple<Color>: Sized {
    /// The sizes of the children in order, each measured against the width
    /// that the children before it have left of `available`.
    spec fn measured(&self, available: Size) -> Seq<Size>;

    /// Whether every child can be measured that way.
    spec fn can_measure_all(&self, available: Size) -> bool;

    /// What the children ask of the surface, in order, when the stack is
    /// drawn at `available` with its origin at `origin`.
    spec fn render_all(
        &self,
        available: Size,
        spacing: u32,
        vertical_alignment: VerticalAlignment,
        origin: Point,
    ) -> Seq<DrawOp<Color>>;

    /// Whether every child can be drawn that way.
    spec fn can_render_all(
        &self,
        available: Size,
        spacing: u32,
        vertical_alignment: VerticalAlignment,
        origin: Point,
    ) -> bool;

    /// Measures the stack, or finds that it cannot be measured.
    fn try_total_size(&self, available_size: Size, spacing: u32) -> (s: Option<Size>)
        ensures
            s == if self.can_measure_all(available_size) && h_stack_fits(
                self.measured(available_size),
                spacing,
            ) {
                Some(h_stack_size(self.measured(available_size), spacing))
            } else {
                None
            },
    ;

    /// Measures the stack.
    fn total_size(&self, available_size: Size, spacing: u32) -> (s: Size)
        requires
            self.can_measure_all(available_size),
            h_stack_fits(self.measured(available_size), spacing),
        ensures
            s == h_stack_size(self.measured(available_size), spacing),
    ;

    /// Tests whether the children can be drawn.
    fn can_draw_all(
        &self,
        available_size: Size,
        spacing: u32,
        vertical_alignment: VerticalAlignment,
        offset: Point,
    ) -> (ok: bool)
        ensures
            ok == self.can_render_all(available_size, spacing, vertical_alignment, offset),
    ;

    /// Draws the children in order.
    fn draw_all(
        &self,
        available_size: Size,
        spacing: u32,
        vertical_alignment: VerticalAlignment,
        draw_target: &mut LayoutDrawTarget<'_, Color>,
    )
        requires
            self.can_render_all(
                available_size,
                spacing,
                vertical_alignment,
                old(draw_target).offset,
            ),
        ensures
            final(draw_target).extends(
                *old(draw_target),
                self.render_all(available_size, spacing, vertical_alignment, old(draw_target).offset),
            ),
            *final(final(draw_target).original_draw_target)
                == *final(old(draw_target).original_draw_target),
    ;
}

impl<Color, T: ViewTuple<Color>> HViewTuple<Color> for T {
    open spec fn measured(&self, available: Size) -> Seq<Size> {
        h_measured::<Color, T>(*self, available, self.count())
    }

    open spec fn can_measure_all(&self, available: Size) -> bool {
        forall|i: int| 0 <= i < self.count() ==> h_admits::<Color, T>(*self, available, i)
    }

    open spec fn render_all(
        &self,
        available: Size,
        spacing: u32,
        vertical_alignment: VerticalAlignment,
        origin: Point,
    ) -> Seq<DrawOp<Color>> {
        h_placed::<Color, T>(
            *self,
            self.count(),
            available,
            spacing,
            vertical_alignment,
            origin,
        ).ops
    }

    open spec fn can_render_all(
        &self,
        available: Size,
        spacing: u32,
        vertical_alignment: VerticalAlignment,
        origin: Point,
    ) -> bool {
        forall|i: int|
            0 <= i < self.count() ==> h_can_place::<Color, T>(
                *self,
                i,
                available,
                spacing,
                vertical_alignment,
                origin,
            )
    }

    fn try_total_size(&self, available_size: Size, spacing: u32) -> (s: Option<Size>) {
        let n = self.len();
        let mut total_width: u32 = 0;
        let mut max_height: u32 = 0;
        let mut i: u32 = 0;
        while i < n
            invariant
                i <= n,
                n == self.count(),
                forall|j: int| 0 <= j < i ==> h_admits::<Color, T>(*self, available_size, j),
                total_width == sum_of_widths(
                    h_measured::<Color, T>(*self, available_size, i as nat),
                ),
                max_height == largest_height(
                    h_measured::<Color, T>(*self, available_size, i as nat),
                ),
            decreases n - i,
        {
            let ghost before = h_measured::<Color, T>(*self, available_size, i as nat);
            let ghost admitted = h_admits::<Color, T>(*self, available_size, i as int);
            let left = match available_size.width.checked_sub(total_width) {
                Some(left) => left,
                None => {
                    assert(!admitted);
                    return None;
                },
            };
            let remaining_size = Size { width: left, height: available_size.height };
            let s = match self.try_child_size(i, remaining_size) {
                Some(s) => s,
                None => {
                    assert(!admitted);
                    return None;
                },
            };
            let total = match total_width.checked_add(s.width) {
                Some(total) => total,
                None => {
                    assert(!admitted);
                    return None;
                },
            };
            proof {
                lemma_totals_of_push(before, s);
                assert(admitted);
            }
            total_width = total;
            max_height = max_extent(max_height, s.height);
            i = i + 1;
        }
        proof {
            lemma_h_measured_is_a_prefix::<Color, T>(*self, available_size, n as nat, n as nat);
        }
        if n > 1 {
            let between = n - 1;
            assert(spacing * between <= 0xffff_ffff * 0xffff_ffff) by (nonlinear_arith)
                requires
                    spacing <= 0xffff_ffff,
                    between <= 0xffff_ffff,
            ;
            let total: u64 = total_width as u64 + (spacing as u64) * (between as u64);
            if total > u32::MAX as u64 {
                None
            } else {
                Some(Size { width: total as u32, height: max_height })
            }
        } else {
            Some(Size { width: total_width, height: max_height })
        }
    }

    fn total_size(&self, available_size: Size, spacing: u32) -> (s: Size) {
        let count = self.len();
        let mut total_width: u32 = 0;
        let mut max_height: u32 = 0;
        let mut i: u32 = 0;
        while i < count
            invariant
                i <= count,
                count == self.count(),
                self.can_measure_all(available_size),
                total_width == sum_of_widths(
                    h_measured::<Color, T>(*self, available_size, i as nat),
                ),
                max_height == largest_height(
                    h_measured::<Color, T>(*self, available_size, i as nat),
                ),
            decreases count - i,
        {
            let ghost before = h_measured::<Color, T>(*self, available_size, i as nat);
            assert(h_admits::<Color, T>(*self, available_size, i as int));
            let left = available_size.width - total_width;
            let remaining_size = Size { width: left, height: available_size.height };
            let s = self.child_size(i, remaining_size);
            proof {
                lemma_totals_of_push(before, s);
            }
            total_width = total_width + s.width;
            max_height = max_extent(max_height, s.height);
            i = i + 1;
        }

        proof {
            lemma_h_measured_is_a_prefix::<Color, T>(
                *self,
                available_size,
                count as nat,
                count as nat,
            );
        }
        if count > 1 {
            assert(spacing * (count - 1) >= 0) by (nonlinear_arith)
                requires
                    count > 1,
            ;
            total_width = total_width + spacing * (count - 1);
        }
        Size { width: total_width, height: max_height }
    }

    fn can_draw_all(
        &self,
        available_size: Size,
        spacing: u32,
        vertical_alignment: VerticalAlignment,
        offset: Point,
    ) -> (ok: bool) {
        let n = self.len();
        let mut consumed: u32 = 0;
        let mut advance: u32 = 0;
        let mut i: u32 = 0;
        while i < n
            invariant
                i <= n,
                n == self.count(),
                forall|j: int|
                    0 <= j < i ==> h_can_place::<Color, T>(
                        *self,
                        j,
                        available_size,
                        spacing,
                        vertical_alignment,
                        offset,
                    ),
                consumed == sum_of_widths(
                    h_placed::<Color, T>(
                        *self,
                        i as nat,
                        available_size,
                        spacing,
                        vertical_alignment,
                        offset,
                    ).measured,
                ),
                advance == h_placed::<Color, T>(
                    *self,
                    i as nat,
                    available_size,
                    spacing,
                    vertical_alignment,
                    offset,
                ).advance,
                consumed <= advance,
            decreases n - i,
        {
            let ghost placed = h_placed::<Color, T>(
                *self,
                i as nat,
                available_size,
                spacing,
                vertical_alignment,
                offset,
            );
            let ghost placeable = h_can_place::<Color, T>(
                *self,
                i as int,
                available_size,
                spacing,
                vertical_alignment,
                offset,
            );
            let left = match available_size.width.checked_sub(consumed) {
                Some(left) => left,
                None => {
                    assert(!placeable);
                    return false;
                },
            };
            let remaining_size = Size { width: left, height: available_size.height };
            let view_size = match self.try_child_size(i, remaining_size) {
                Some(s) => s,
                None => {
                    assert(!placeable);
                    return false;
                },
            };
            let inset = match vertical_alignment.checked_inset(available_size.height, view_size.height) {
                Some(inset) => inset,
                None => {
                    assert(!placeable);
                    return false;
                },
            };
            let along = to_signed(advance);
            let across = to_signed(inset);
            if !offset.can_shifted(along, across) {
                assert(!placeable);
                return false;
            }
            if !self.can_draw_child(i, view_size, offset.shifted(along, across)) {
                assert(!placeable);
                return false;
            }
            let next = match advance.checked_add(view_size.width) {
                Some(a) => a.checked_add(spacing),
                None => None,
            };
            let next = match next {
                Some(next) => next,
                None => {
                    assert(!placeable);
                    return false;
                },
            };
            proof {
                lemma_totals_of_push(placed.measured, view_size);
                assert(placeable);
            }
            consumed = consumed + view_size.width;
            advance = next;
            i = i + 1;
        }
        true
    }

    fn draw_all(
        &self,
        available_size: Size,
        spacing: u32,
        vertical_alignment: VerticalAlignment,
        draw_target: &mut LayoutDrawTarget<'_, Color>,
    ) {
        let count = self.len();
        let mut consumed: u32 = 0;
        let mut current_offset: u32 = 0;
        let mut i: u32 = 0;
        while i < count
            invariant
                i <= count,
                count == self.count(),
                self.can_render_all(
                    available_size,
                    spacing,
                    vertical_alignment,
                    old(draw_target).offset,
                ),
                consumed == sum_of_widths(
                    h_placed::<Color, T>(
                        *self,
                        i as nat,
                        available_size,
                        spacing,
                        vertical_alignment,
                        old(draw_target).offset,
                    ).measured,
                ),
                current_offset == h_placed::<Color, T>(
                    *self,
                    i as nat,
                    available_size,
                    spacing,
                    vertical_alignment,
                    old(draw_target).offset,
                ).advance,
                consumed <= current_offset,
                draw_target.extends(
                    *old(draw_target),
                    h_placed::<Color, T>(
                        *self,
                        i as nat,
                        available_size,
                        spacing,
                        vertical_alignment,
                        old(draw_target).offset,
                    ).ops,
                ),
                *final(draw_target.original_draw_target)
                    == *final(old(draw_target).original_draw_target),
            decreases count - i,
        {
            let ghost placed = h_placed::<Color, T>(
                *self,
                i as nat,
                available_size,
                spacing,
                vertical_alignment,
                old(draw_target).offset,
            );
            assert(h_can_place::<Color, T>(
                *self,
                i as int,
                available_size,
                spacing,
                vertical_alignment,
                old(draw_target).offset,
            ));
            let left = available_size.width - consumed;
            let remaining_size = Size { width: left, height: available_size.height };
            let view_size = self.child_size(i, remaining_size);

            let inset = vertical_alignment.inset(available_size.height, view_size.height);
            let along = to_signed(current_offset);
            let across = to_signed(inset);

            let mut child_target = LayoutDrawTarget {
                original_draw_target: draw_target.original_draw_target,
                offset: draw_target.offset.shifted(along, across),
            };

            self.draw_child(i, view_size, &mut child_target);
            proof {
                lemma_totals_of_push(placed.measured, view_size);
            }
            consumed = consumed + view_size.width;
            current_offset = current_offset + view_size.width + spacing;
            i = i + 1;
        }
    }
}

impl<Views, Color> HStack<Views, Color> where Views: HViewTuple<Color> {
    pub closed spec fn spacing(self) -> u32 {
        self.spacing
    }

    pub closed spec fn vertical_alignment(self) -> VerticalAlignment {
        self.vertical_alignment
    }

    pub closed spec fn views(self) -> Views {
        self.views
    }

    pub fn new(spacing: u32, vertical_alignment: VerticalAlignment, views: Views) -> (stack: Self)
        ensures
            stack.spacing() == spacing,
            stack.vertical_alignment() == vertical_alignment,
            stack.views() == views,
    {
        Self { spacing, vertical_alignment, views, _marker: PhantomData }
    }
}

impl<Views, Color> View<Color> for HStack<Views, Color> where Views: HViewTuple<Color> {
    open spec fn can_measure(&self, available: Size) -> bool {
        &&& self.views().can_measure_all(available)
        &&& h_stack_fits(self.views().measured(available), self.spacing())
    }

    open spec fn measure(&self, available: Size) -> Size {
        h_stack_size(self.views().measured(available), self.spacing())
    }

    open spec fn can_render(&self, size: Size, offset: Point) -> bool {
        self.views().can_render_all(size, self.spacing(), self.vertical_alignment(), offset)
    }

    open spec fn render(&self, size: Size, offset: Point) -> Seq<DrawOp<Color>> {
        self.views().render_all(size, self.spacing(), self.vertical_alignment(), offset)
    }

    fn try_size(&self, available: Size) -> (s: Option<Size>) {
        self.views.try_total_size(available, self.spacing)
    }

    fn size(&self, available_size: Size) -> (s: Size) {
        self.views.total_size(available_size, self.spacing)
    }

    fn can_draw(&self, size: Size, offset: Point) -> (ok: bool) {
        self.views.can_draw_all(size, self.spacing, self.vertical_alignment, offset)
    }

    fn draw(&self, size: Size, draw_target: &mut LayoutDrawTarget<'_, Color>) {
        self.views.draw_all(size, self.spacing, self.vertical_alignment, draw_target);
    }
}

/// A horizontal stack is as wide as its children together, each
/// measured against the width that those before it have left, and the
/// spacing between them; it is as high as its highest child.
pub proof fn lemma_horizontal_stack_size<Color, Views: HViewTuple<Color>>(
    stack: HStack<Views, Color>,
    available: Size,
)
    requires
        stack.can_measure(available),
        stack.views().measured(available).len() >= 1,
    ensures
        stack.measure(available).width == sum_of_widths(stack.views().measured(available))
            + stack.spacing() * (stack.views().measured(available).len() - 1),
        stack.measure(available).height == largest_height(stack.views().measured(available)),
{
    let sizes = stack.views().measured(available);
    lemma_totals_are_natural(sizes);
    assert(gaps(stack.spacing(), sizes.len()) == stack.spacing() * (sizes.len() - 1)
        && stack.spacing() * (sizes.len() - 1) >= 0) by (nonlinear_arith)
        requires
            sizes.len() >= 1,
            gaps(stack.spacing(), sizes.len()) == if sizes.len() > 1 {
                stack.spacing() * (sizes.len() - 1)
            } else {
                0
            },
    ;
}

/// The sizes of the first `n` children are the first `n` of the sizes of
/// more children: what comes later does not change what came before.
pub proof fn lemma_h_measured_is_a_prefix<Color, T: ViewTuple<Color>>(
    views: T,
    available: Size,
    n: nat,
    m: nat,
)
    requires
        n <= m,
    ensures
        h_measured::<Color, T>(views, available, m).len() == m,
        h_measured::<Color, T>(views, available, m).take(n as int) == h_measured::<Color, T>(
            views,
            available,
            n,
        ),
    decreases m,
{
    if m > 0 {
        let before = h_measured::<Color, T>(views, available, (m - 1) as nat);
        let all = h_measured::<Color, T>(views, available, m);
        if n < m {
            lemma_h_measured_is_a_prefix::<Color, T>(views, available, n, (m - 1) as nat);
            assert(all.take(n as int) =~= before.take(n as int));
        } else {
            lemma_h_measured_is_a_prefix::<Color, T>(
                views,
                available,
                (m - 1) as nat,
                (m - 1) as nat,
            );
            assert(all.take(m as int) =~= all);
        }
    } else {
        assert(h_measured::<Color, T>(views, available, m).take(0) =~= Seq::empty());
    }
}

/// Every child of a horizontal stack is measured against the available
/// size less the widths of the children before it.
pub proof fn lemma_horizontal_children_share_the_width<Color, T: ViewTuple<Color>>(
    views: T,
    available: Size,
    index: int,
)
    requires
        0 <= index < views.count(),
    ensures
        views.measured(available).len() == views.count(),
        views.measured(available)[index] == views.measure_child(
            index,
            h_remaining(available, views.measured(available).take(index)),
        ),
        h_remaining(available, views.measured(available).take(index)).height
            == available.height,
        views.can_measure_all(available) ==> h_remaining(
            available,
            views.measured(available).take(index),
        ).width == available.width - sum_of_widths(views.measured(available).take(index)),
{
    let all = views.measured(available);
    lemma_h_measured_is_a_prefix::<Color, T>(views, available, index as nat, views.count());
    lemma_h_measured_is_a_prefix::<Color, T>(
        views,
        available,
        (index + 1) as nat,
        views.count(),
    );
    let upto = h_measured::<Color, T>(views, available, (index + 1) as nat);
    assert(upto[index] == all.take(index + 1)[index]);
    lemma_totals_are_natural(all.take(index));
    if views.can_measure_all(available) {
        assert(h_admits::<Color, T>(views, available, index));
    }
}

/// Drawing measures the children as measuring does: the sizes at which the
/// first `n` children are drawn are the sizes they are measured at.
pub proof fn lemma_horizontal_drawing_measures_alike<Color, T: ViewTuple<Color>>(
    views: T,
    n: nat,
    available: Size,
    spacing: u32,
    alignment: VerticalAlignment,
    origin: Point,
)
    ensures
        h_placed::<Color, T>(views, n, available, spacing, alignment, origin).measured
            == h_measured::<Color, T>(views, available, n),
    decreases n,
{
    if n > 0 {
        lemma_horizontal_drawing_measures_alike::<Color, T>(
            views,
            (n - 1) as nat,
            available,
            spacing,
            alignment,
            origin,
        );
    }
}

} // verus!
