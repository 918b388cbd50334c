//! A vertical stack: children one below the other, from top to bottom.

use vstd::prelude::*;
use core::marker::PhantomData;
use crate::alignment::HorizontalAlignment;
use crate::draw_target::{DrawOp, LayoutDrawTarget};
use crate::geometry::{
    gaps, largest_width, lemma_totals_are_natural, lemma_totals_of_push, max_extent, signed,
    sum_of_heights, to_signed, Point, Size,
};
use crate::tuple::ViewTuple;
use crate::view::View;

verus! {

/// Lays its children out one below the other, from top to bottom,
/// `spacing` apart, each placed across the stack by one alignment. Earlier
/// children come first where space is short: each child is measured against
/// the height that the children before it have left.
pub struct VStack<Views, Color> where Views: VViewTuple<Color> {
    spacing: u32,
    horizontal_alignment: HorizontalAlignment,
    views: Views,
    _marker: PhantomData<Color>,
}

/// The space that the next child is measured against, once the children
/// before it have been measured as `measured`.
pub open spec fn v_remaining(available: Size, measured: Seq<Size>) -> Size {
    Size { width: available.width, height: (available.height - sum_of_heights(measured)) as u32 }
}

/// The sizes of the first `n` children in order, each measured against the
/// height that the children before it have left of `available`.
pub open spec fn v_measured<Color, T: ViewTuple<Color>>(
    views: T,
    available: Size,
    n: nat,
) -> Seq<Size>
    decreases n,
{
    if n == 0 {
        Seq::empty()
    } else {
        let before = v_measured::<Color, T>(views, available, (n - 1) as nat);
        before.push(views.measure_child(n - 1, v_remaining(available, before)))
    }
}

/// Whether the child at `index` can be measured in its turn: the children
/// before it have left some height, it can be measured against that, and the
/// sum of the heights stays an extent.
pub open spec fn v_admits<Color, T: ViewTuple<Color>>(
    views: T,
    available: Size,
    index: int,
) -> bool {
    let before = v_measured::<Color, T>(views, available, index as nat);
    &&& sum_of_heights(before) <= available.height
    &&& views.can_measure_child(index, v_remaining(available, before))
    &&& sum_of_heights(before) + views.measure_child(
        index,
        v_remaining(available, before),
    ).height <= u32::MAX
}

/// Whether a stack of children of these sizes has a size: the heights and
/// the spacing between them add up to an extent.
pub open spec fn v_stack_fits(sizes: Seq<Size>, spacing: u32) -> bool {
    sum_of_heights(sizes) + gaps(spacing, sizes.len()) <= u32::MAX
}

/// The size of a stack of children of these sizes: along the stack the sum
/// of the heights and the spacing between them, across it the largest
/// width.
pub open spec fn v_stack_size(sizes: Seq<Size>, spacing: u32) -> Size {
    Size {
        height: (sum_of_heights(sizes) + gaps(spacing, sizes.len())) as u32,
        width: largest_width(sizes),
    }
}

/// A drawing pass part way through: the sizes of the children drawn so far,
/// how far along the stack the next child starts, and what was asked of the
/// surface.
pub struct VPlaced<Color> {
    pub measured: Seq<Size>,
    pub advance: int,
    pub ops: Seq<DrawOp<Color>>,
}

/// The size at which the child at `index` is drawn next: its size against
/// the height that the children before it have left.
pub open spec fn v_child_size<Color, T: ViewTuple<Color>>(
    placed: VPlaced<Color>,
    views: T,
    index: int,
    available: Size,
) -> Size {
    views.measure_child(index, v_remaining(available, placed.measured))
}

/// How far across the stack the child at `index` is set in.
pub open spec fn v_child_inset<Color, T: ViewTuple<Color>>(
    placed: VPlaced<Color>,
    views: T,
    index: int,
    available: Size,
    alignment: HorizontalAlignment,
) -> int {
    alignment.inset_of(available.width, v_child_size(placed, views, index, available).width)
}

/// The origin of the child at `index`, for a stack whose origin is `origin`.
pub open spec fn v_child_origin<Color, T: ViewTuple<Color>>(
    placed: VPlaced<Color>,
    views: T,
    index: int,
    available: Size,
    alignment: HorizontalAlignment,
    origin: Point,
) -> Point {
    origin.shift(
        signed(v_child_inset(placed, views, index, available, alignment) as u32),
        signed(placed.advance as u32),
    )
}

/// Whether the child at `index` can be drawn as the next step of the pass
/// `placed`.
pub open spec fn v_can_step<Color, T: ViewTuple<Color>>(
    placed: VPlaced<Color>,
    views: T,
    index: int,
    available: Size,
    spacing: u32,
    alignment: HorizontalAlignment,
    origin: Point,
) -> bool {
    let size = v_child_size(placed, views, index, available);
    &&& sum_of_heights(placed.measured) <= available.height
    &&& views.can_measure_child(index, v_remaining(available, placed.measured))
    &&& alignment.has_inset(available.width, size.width)
    &&& origin.can_shift(
        signed(v_child_inset(placed, views, index, available, alignment) as u32),
        signed(placed.advance as u32),
    )
    &&& views.can_render_child(
        index,
        size,
        v_child_origin(placed, views, index, available, alignment, origin),
    )
    &&& placed.advance + size.height + spacing <= u32::MAX
}

/// The pass `placed` after the child at `index` has been drawn as its next
/// step: the child is drawn at its own size, and the one after it starts
/// behind it and the spacing.
pub open spec fn v_step<Color, T: ViewTuple<Color>>(
    placed: VPlaced<Color>,
    views: T,
    index: int,
    available: Size,
    spacing: u32,
    alignment: HorizontalAlignment,
    origin: Point,
) -> VPlaced<Color> {
    let size = v_child_size(placed, views, index, available);
    VPlaced {
        measured: placed.measured.push(size),
        advance: placed.advance + size.height + spacing,
        ops: placed.ops + views.render_child(
            index,
            size,
            v_child_origin(placed, views, index, available, alignment, origin),
        ),
    }
}

/// The drawing pass after its first `n` children.
pub open spec fn v_placed<Color, T: ViewTuple<Color>>(
    views: T,
    n: nat,
    available: Size,
    spacing: u32,
    alignment: HorizontalAlignment,
    origin: Point,
) -> VPlaced<Color>
    decreases n,
{
    if n == 0 {
        VPlaced { measured: Seq::empty(), advance: 0, ops: Seq::empty() }
    } else {
        v_step(
            v_placed(views, (n - 1) as nat, available, spacing, alignment, origin),
            views,
            n - 1,
            available,
            spacing,
            alignment,
            origin,
        )
    }
}

/// Whether the child at `index` can be drawn in its turn, after the children
/// before it.
pub open spec fn v_can_place<Color, T: ViewTuple<Color>>(
    views: T,
    index: int,
    available: Size,
    spacing: u32,
    alignment: HorizontalAlignment,
    origin: Point,
) -> bool {
    v_can_step(
        v_placed(views, index as nat, available, spacing, alignment, origin),
        views,
        index,
        available,
        spacing,
        alignment,
        origin,
    )
}

/// A fixed number of views of any types, as the children of a vertical
/// stack.
pub trait VViewTuple<Color>: Sized {
    /// The sizes of the children in order, each measured against the height
    /// that the children before it have left of `available`.
    spec fn measured(&self, available: Size) -> Seq<Size>;

    /// Whether every child can be measured that way.
    spec fn can_measure_all(&self, available: Size) -> bool;

    /// What the children ask of the surface, in order, when the stack is
    /// drawn at `available` with its origin at `origin`.
    spec fn render_all(
        &self,
        available: Size,
        spacing: u32,
        horizontal_alignment: HorizontalAlignment,
        origin: Point,
    ) -> Seq<DrawOp<Color>>;

    /// Whether every child can be drawn that way.
    spec fn can_render_all(
        &self,
        available: Size,
        spacing: u32,
        horizontal_alignment: HorizontalAlignment,
        origin: Point,
    ) -> bool;

    /// Measures the stack, or finds that it cannot be measured.
    fn try_total_size(&self, available_size: Size, spacing: u32) -> (s: Option<Size>)
        ensures
            s == if self.can_measure_all(available_size) && v_stack_fits(
                self.measured(available_size),
                spacing,
            ) {
                Some(v_stack_size(self.measured(available_size), spacing))
            } else {
                None
            },
    ;

    /// Measures the stack.
    fn total_size(&self, available_size: Size, spacing: u32) -> (s: Size)
        requires
            self.can_measure_all(available_size),
            v_stack_fits(self.measured(available_size), spacing),
        ensures
            s == v_stack_size(self.measured(available_size), spacing),
    ;

    /// Tests whether the children can be drawn.
    fn can_draw_all(
        &self,
        available_size: Size,
        spacing: u32,
        horizontal_alignment: HorizontalAlignment,
        offset: Point,
    ) -> (ok: bool)
        ensures
            ok == self.can_render_all(available_size, spacing, horizontal_alignment, offset),
    ;

    /// Draws the children in order.
    fn draw_all(
        &self,
        available_size: Size,
        spacing: u32,
        horizontal_alignment: HorizontalAlignment,
        draw_target: &mut LayoutDrawTarget<'_, Color>,
    )
        requires
            self.can_render_all(
                available_size,
                spacing,
                horizontal_alignment,
                old(draw_target).offset,
            ),
        ensures
            final(draw_target).extends(
                *old(draw_target),
                self.render_all(available_size, spacing, horizontal_alignment, old(draw_target).offset),
            ),
            *final(final(draw_target).original_draw_target)
                == *final(old(draw_target).original_draw_target),
    ;
}

impl<Color, T: ViewTuple<Color>> VViewTuple<Color> for T {
    open spec fn measured(&self, available: Size) -> Seq<Size> {
        v_measured::<Color, T>(*self, available, self.count())
    }

    open spec fn can_measure_all(&self, available: Size) -> bool {
        forall|i: int| 0 <= i < self.count() ==> v_admits::<Color, T>(*self, available, i)
    }

    open spec fn render_all(
        &self,
        available: Size,
        spacing: u32,
        horizontal_alignment: HorizontalAlignment,
        origin: Point,
    ) -> Seq<DrawOp<Color>> {
        v_placed::<Color, T>(
            *self,
            self.count(),
            available,
            spacing,
            horizontal_alignment,
            origin,
        ).ops
    }

    open spec fn can_render_all(
        &self,
        available: Size,
        spacing: u32,
        horizontal_alignment: HorizontalAlignment,
        origin: Point,
    ) -> bool {
        forall|i: int|
            0 <= i < self.count() ==> v_can_place::<Color, T>(
                *self,
                i,
                available,
                spacing,
                horizontal_alignment,
                origin,
            )
    }

    fn try_total_size(&self, available_size: Size, spacing: u32) -> (s: Option<Size>) {
        let n = self.len();
        let mut total_height: u32 = 0;
        let mut max_width: u32 = 0;
        let mut i: u32 = 0;
        while i < n
            invariant
                i <= n,
                n == self.count(),
                forall|j: int| 0 <= j < i ==> v_admits::<Color, T>(*self, available_size, j),
                total_height == sum_of_heights(
                    v_measured::<Color, T>(*self, available_size, i as nat),
                ),
                max_width == largest_width(
                    v_measured::<Color, T>(*self, available_size, i as nat),
                ),
            decreases n - i,
        {
            let ghost before = v_measured::<Color, T>(*self, available_size, i as nat);
            let ghost admitted = v_admits::<Color, T>(*self, available_size, i as int);
            let left = match available_size.height.checked_sub(total_height) {
                Some(left) => left,
                None => {
                    assert(!admitted);
                    return None;
                },
            };
            let remaining_size = Size { width: available_size.width, height: left };
            let s = match self.try_child_size(i, remaining_size) {
                Some(s) => s,
                None => {
                    assert(!admitted);
                    return None;
                },
            };
            let total = match total_height.checked_add(s.height) {
                Some(total) => total,
                None => {
                    assert(!admitted);
                    return None;
                },
            };
            proof {
                lemma_totals_of_push(before, s);
                assert(admitted);
            }
            total_height = total;
            max_width = max_extent(max_width, s.width);
            i = i + 1;
        }
        proof {
            lemma_v_measured_is_a_prefix::<Color, T>(*self, available_size, n as nat, n as nat);
        }
        if n > 1 {
            let between = n - 1;
            assert(spacing * between <= 0xffff_ffff * 0xffff_ffff) by (nonlinear_arith)
                requires
                    spacing <= 0xffff_ffff,
                    between <= 0xffff_ffff,
            ;
            let total: u64 = total_height as u64 + (spacing as u64) * (between as u64);
            if total > u32::MAX as u64 {
                None
            } else {
                Some(Size { height: total as u32, width: max_width })
            }
        } else {
            Some(Size { height: total_height, width: max_width })
        }
    }

    fn total_size(&self, available_size: Size, spacing: u32) -> (s: Size) {
        let count = self.len();
        let mut total_height: u32 = 0;
        let mut max_width: u32 = 0;
        let mut i: u32 = 0;
        while i < count
            invariant
                i <= count,
                count == self.count(),
                self.can_measure_all(available_size),
                total_height == sum_of_heights(
                    v_measured::<Color, T>(*self, available_size, i as nat),
                ),
                max_width == largest_width(
                    v_measured::<Color, T>(*self, available_size, i as nat),
                ),
            decreases count - i,
        {
            let ghost before = v_measured::<Color, T>(*self, available_size, i as nat);
            assert(v_admits::<Color, T>(*self, available_size, i as int));
            let left = available_size.height - total_height;
            let remaining_size = Size { width: available_size.width, height: left };
            let s = self.child_size(i, remaining_size);
            proof {
                lemma_totals_of_push(before, s);
            }
            total_height = total_height + s.height;
            max_width = max_extent(max_width, s.width);
            i = i + 1;
        }

        proof {
            lemma_v_measured_is_a_prefix::<Color, T>(
                *self,
                available_size,
                count as nat,
                count as nat,
            );
        }
        if count > 1 {
            assert(spacing * (count - 1) >= 0) by (nonlinear_arith)
                requires
                    count > 1,
            ;
            total_height = total_height + spacing * (count - 1);
        }
        Size { height: total_height, width: max_width }
    }

    fn can_draw_all(
        &self,
        available_size: Size,
        spacing: u32,
        horizontal_alignment: HorizontalAlignment,
        offset: Point,
    ) -> (ok: bool) {
        let n = self.len();
        let mut consumed: u32 = 0;
        let mut advance: u32 = 0;
        let mut i: u32 = 0;
        while i < n
            invariant
                i <= n,
                n == self.count(),
                forall|j: int|
                    0 <= j < i ==> v_can_place::<Color, T>(
                        *self,
                        j,
                        available_size,
                        spacing,
                        horizontal_alignment,
                        offset,
                    ),
                consumed == sum_of_heights(
                    v_placed::<Color, T>(
                        *self,
                        i as nat,
                        available_size,
                        spacing,
                        horizontal_alignment,
                        offset,
                    ).measured,
                ),
                advance == v_placed::<Color, T>(
                    *self,
                    i as nat,
                    available_size,
                    spacing,
                    horizontal_alignment,
                    offset,
                ).advance,
                consumed <= advance,
            decreases n - i,
        {
            let ghost placed = v_placed::<Color, T>(
                *self,
                i as nat,
                available_size,
                spacing,
                horizontal_alignment,
                offset,
            );
            let ghost placeable = v_can_place::<Color, T>(
                *self,
                i as int,
                available_size,
                spacing,
                horizontal_alignment,
                offset,
            );
            let left = match available_size.height.checked_sub(consumed) {
                Some(left) => left,
                None => {
                    assert(!placeable);
                    return false;
                },
            };
            let remaining_size = Size { width: available_size.width, height: left };
            let view_size = match self.try_child_size(i, remaining_size) {
                Some(s) => s,
                None => {
                    assert(!placeable);
                    return false;
                },
            };
            let inset = match horizontal_alignment.checked_inset(available_size.width, view_size.width) {
                Some(inset) => inset,
                None => {
                    assert(!placeable);
                    return false;
                },
            };
            let along = to_signed(advance);
            let across = to_signed(inset);
            if !offset.can_shifted(across, along) {
                assert(!placeable);
                return false;
            }
            if !self.can_draw_child(i, view_size, offset.shifted(across, along)) {
                assert(!placeable);
                return false;
            }
            let next = match advance.checked_add(view_size.height) {
                Some(a) => a.checked_add(spacing),
                None => None,
            };
            let next = match next {
                Some(next) => next,
                None => {
                    assert(!placeable);
                    return false;
                },
            };
            proof {
                lemma_totals_of_push(placed.measured, view_size);
                assert(placeable);
            }
            consumed = consumed + view_size.height;
            advance = next;
            i = i + 1;
        }
        true
    }

    fn draw_all(
        &self,
        available_size: Size,
        spacing: u32,
        horizontal_alignment: HorizontalAlignment,
        draw_target: &mut LayoutDrawTarget<'_, Color>,
    ) {
        let count = self.len();
        let mut consumed: u32 = 0;
        let mut current_offset: u32 = 0;
        let mut i: u32 = 0;
        while i < count
            invariant
                i <= count,
                count == self.count(),
                self.can_render_all(
                    available_size,
                    spacing,
                    horizontal_alignment,
                    old(draw_target).offset,
                ),
                consumed == sum_of_heights(
                    v_placed::<Color, T>(
                        *self,
                        i as nat,
                        available_size,
                        spacing,
                        horizontal_alignment,
                        old(draw_target).offset,
                    ).measured,
                ),
                current_offset == v_placed::<Color, T>(
                    *self,
                    i as nat,
                    available_size,
                    spacing,
                    horizontal_alignment,
                    old(draw_target).offset,
                ).advance,
                consumed <= current_offset,
                draw_target.extends(
                    *old(draw_target),
                    v_placed::<Color, T>(
                        *self,
                        i as nat,
                        available_size,
                        spacing,
                        horizontal_alignment,
                        old(draw_target).offset,
                    ).ops,
                ),
                *final(draw_target.original_draw_target)
                    == *final(old(draw_target).original_draw_target),
            decreases count - i,
        {
            let ghost placed = v_placed::<Color, T>(
                *self,
                i as nat,
                available_size,
                spacing,
                horizontal_alignment,
                old(draw_target).offset,
            );
            assert(v_can_place::<Color, T>(
                *self,
                i as int,
                available_size,
                spacing,
                horizontal_alignment,
                old(draw_target).offset,
            ));
            let left = available_size.height - consumed;
            let remaining_size = Size { width: available_size.width, height: left };
            let view_size = self.child_size(i, remaining_size);

            let inset = horizontal_alignment.inset(available_size.width, view_size.width);
            let along = to_signed(current_offset);
            let across = to_signed(inset);

            let mut child_target = LayoutDrawTarget {
                original_draw_target: draw_target.original_draw_target,
                offset: draw_target.offset.shifted(across, along),
            };

            self.draw_child(i, view_size, &mut child_target);
            proof {
                lemma_totals_of_push(placed.measured, view_size);
            }
            consumed = consumed + view_size.height;
            current_offset = current_offset + view_size.height + spacing;
            i = i + 1;
        }
    }
}

impl<Views, Color> VStack<Views, Color> where Views: VViewTuple<Color> {
    pub closed spec fn spacing(self) -> u32 {
        self.spacing
    }

    pub closed spec fn horizontal_alignment(self) -> HorizontalAlignment {
        self.horizontal_alignment
    }

    pub closed spec fn views(self) -> Views {
        self.views
    }

    pub fn new(spacing: u32, horizontal_alignment: HorizontalAlignment, views: Views) -> (stack: Self)
        ensures
            stack.spacing() == spacing,
            stack.horizontal_alignment() == horizontal_alignment,
            stack.views() == views,
    {
        Self { spacing, horizontal_alignment, views, _marker: PhantomData }
    }
}

impl<Views, Color> View<Color> for VStack<Views, Color> where Views: VViewTuple<Color> {
    open spec fn can_measure(&self, available: Size) -> bool {
        &&& self.views().can_measure_all(available)
        &&& v_stack_fits(self.views().measured(available), self.spacing())
    }

    open spec fn measure(&self, available: Size) -> Size {
        v_stack_size(self.views().measured(available), self.spacing())
    }

    open spec fn can_render(&self, size: Size, offset: Point) -> bool {
        self.views().can_render_all(size, self.spacing(), self.horizontal_alignment(), offset)
    }

    open spec fn render(&self, size: Size, offset: Point) -> Seq<DrawOp<Color>> {
        self.views().render_all(size, self.spacing(), self.horizontal_alignment(), offset)
    }

    fn try_size(&self, available: Size) -> (s: Option<Size>) {
        self.views.try_total_size(available, self.spacing)
    }

    fn size(&self, available_size: Size) -> (s: Size) {
        self.views.total_size(available_size, self.spacing)
    }

    fn can_draw(&self, size: Size, offset: Point) -> (ok: bool) {
        self.views.can_draw_all(size, self.spacing, self.horizontal_alignment, offset)
    }

    fn draw(&self, size: Size, draw_target: &mut LayoutDrawTarget<'_, Color>) {
        self.views.draw_all(size, self.spacing, self.horizontal_alignment, draw_target);
    }
}

/// A vertical stack is as high as its children together, each
/// measured against the height that those before it have left, and the
/// spacing between them; it is as wide as its widest child.
pub proof fn lemma_vertical_stack_size<Color, Views: VViewTuple<Color>>(
    stack: VStack<Views, Color>,
    available: Size,
)
    requires
        stack.can_measure(available),
        stack.views().measured(available).len() >= 1,
    ensures
        stack.measure(available).height == sum_of_heights(stack.views().measured(available))
            + stack.spacing() * (stack.views().measured(available).len() - 1),
        stack.measure(available).width == largest_width(stack.views().measured(available)),
{
    let sizes = stack.views().measured(available);
    lemma_totals_are_natural(sizes);
    assert(gaps(stack.spacing(), sizes.len()) == stack.spacing() * (sizes.len() - 1)
        && stack.spacing() * (sizes.len() - 1) >= 0) by (nonlinear_arith)
        requires
            sizes.len() >= 1,
            gaps(stack.spacing(), sizes.len()) == if sizes.len() > 1 {
                stack.spacing() * (sizes.len() - 1)
            } else {
                0
            },
    ;
}

/// The sizes of the first `n` children are the first `n` of the sizes of
/// more children: what comes later does not change what came before.
pub proof fn lemma_v_measured_is_a_prefix<Color, T: ViewTuple<Color>>(
    views: T,
    available: Size,
    n: nat,
    m: nat,
)
    requires
        n <= m,
    ensures
        v_measured::<Color, T>(views, available, m).len() == m,
        v_measured::<Color, T>(views, available, m).take(n as int) == v_measured::<Color, T>(
            views,
            available,
            n,
        ),
    decreases m,
{
    if m > 0 {
        let before = v_measured::<Color, T>(views, available, (m - 1) as nat);
        let all = v_measured::<Color, T>(views, available, m);
        if n < m {
            lemma_v_measured_is_a_prefix::<Color, T>(views, available, n, (m - 1) as nat);
            assert(all.take(n as int) =~= before.take(n as int));
        } else {
            lemma_v_measured_is_a_prefix::<Color, T>(
                views,
                available,
                (m - 1) as nat,
                (m - 1) as nat,
            );
            assert(all.take(m as int) =~= all);
        }
    } else {
        assert(v_measured::<Color, T>(views, available, m).take(0) =~= Seq::empty());
    }
}

/// Every child of a vertical stack is measured against the available
/// size less the heights of the children before it.
pub proof fn lemma_vertical_children_share_the_height<Color, T: ViewTuple<Color>>(
    views: T,
    available: Size,
    index: int,
)
    requires
        0 <= index < views.count(),
    ensures
        views.measured(available).len() == views.count(),
        views.measured(available)[index] == views.measure_child(
            index,
            v_remaining(available, views.measured(available).take(index)),
        ),
        v_remaining(available, views.measured(available).take(index)).width
            == available.width,
        views.can_measure_all(available) ==> v_remaining(
            available,
            views.measured(available).take(index),
        ).height == available.height - sum_of_heights(views.measured(available).take(index)),
{
    let all = views.measured(available);
    lemma_v_measured_is_a_prefix::<Color, T>(views, available, index as nat, views.count());
    lemma_v_measured_is_a_prefix::<Color, T>(
        views,
        available,
        (index + 1) as nat,
        views.count(),
    );
    let upto = v_measured::<Color, T>(views, available, (index + 1) as nat);
    assert(upto[index] == all.take(index + 1)[index]);
    lemma_totals_are_natural(all.take(index));
    if views.can_measure_all(available) {
        assert(v_admits::<Color, T>(views, available, index));
    }
}

/// Drawing measures the children as measuring does: the sizes at which the
/// first `n` children are drawn are the sizes they are measured at.
pub proof fn lemma_vertical_drawing_measures_alike<Color, T: ViewTuple<Color>>(
    views: T,
    n: nat,
    available: Size,
    spacing: u32,
    alignment: HorizontalAlignment,
    origin: Point,
)
    ensures
        v_placed::<Color, T>(views, n, available, spacing, alignment, origin).measured
            == v_measured::<Color, T>(views, available, n),
    decreases n,
{
    if n > 0 {
        lemma_vertical_drawing_measures_alike::<Color, T>(
            views,
            (n - 1) as nat,
            available,
            spacing,
            alignment,
            origin,
        );
    }
}

} // verus!
