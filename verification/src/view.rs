//! The contract that every node of a view tree meets: it can be measured, and
//! it can be drawn.

use vstd::prelude::*;
use crate::draw_target::{DrawOp, LayoutDrawTarget};
use crate::geometry::{Point, Size};

verus! {

/// A value that can be measured and drawn.
///
/// What a view is and does is given by four functions of the view alone:
/// `measure` and `render` say what it answers, `can_measure` and `can_render`
/// say on which inputs the integer arithmetic behind the answer stays in
/// range. Measuring changes nothing; drawing only appends to the surface.
pub trait View<Color> {
    /// Whether this view can be measured against `available`.
    spec fn can_measure(&self, available: Size) -> bool;

    /// The size this view takes when `available` is the most it may take.
    spec fn measure(&self, available: Size) -> Size;

    /// Whether this view can be drawn at `size` with its origin at `offset`.
    spec fn can_render(&self, size: Size, offset: Point) -> bool;

    /// What this view asks of the surface, in order, when it is drawn at
    /// `size` with its origin at `offset`.
    spec fn render(&self, size: Size, offset: Point) -> Seq<DrawOp<Color>>;

    /// Measures this view, or finds that it cannot be measured.
    fn try_size(&self, available: Size) -> (s: Option<Size>)
        ensures
            s == if self.can_measure(available) {
                Some(self.measure(available))
            } else {
                None
            },
    ;

    /// Measures this view.
    fn size(&self, available_size: Size) -> (s: Size)
        requires
            self.can_measure(available_size),
        ensures
            s == self.measure(available_size),
    ;

    /// Tests whether this view can be drawn at `size` with its origin at
    /// `offset`.
    fn can_draw(&self, size: Size, offset: Point) -> (ok: bool)
        ensures
            ok == self.can_render(size, offset),
    ;

    /// Draws this view at `size`, its origin at the target's offset. The
    /// target keeps its offset and its surface; the surface is asked exactly
    /// what `render` lists, after what it had been asked before.
    fn draw(&self, size: Size, draw_target: &mut LayoutDrawTarget<'_, Color>)
        requires
            self.can_render(size, old(draw_target).offset),
        ensures
            final(draw_target).extends(
                *old(draw_target),
                self.render(size, old(draw_target).offset),
            ),
            *final(final(draw_target).original_draw_target)
                == *final(old(draw_target).original_draw_target),
    ;
}

/// A borrowed view is the view it borrows.
impl<'a, Color, V: View<Color>> View<Color> for &'a V {
    open spec fn can_measure(&self, available: Size) -> bool {
        (**self).can_measure(available)
    }

    open spec fn measure(&self, available: Size) -> Size {
        (**self).measure(available)
    }

    open spec fn can_render(&self, size: Size, offset: Point) -> bool {
        (**self).can_render(size, offset)
    }

    open spec fn render(&self, size: Size, offset: Point) -> Seq<DrawOp<Color>> {
        (**self).render(size, offset)
    }

    fn try_size(&self, available: Size) -> (s: Option<Size>) {
        (**self).try_size(available)
    }

    fn size(&self, available_size: Size) -> (s: Size) {
        (**self).size(available_size)
    }

    fn can_draw(&self, size: Size, offset: Point) -> (ok: bool) {
        (**self).can_draw(size, offset)
    }

    fn draw(&self, size: Size, draw_target: &mut LayoutDrawTarget<'_, Color>) {
        (**self).draw(size, draw_target)
    }
}

/// A value that describes itself by a view tree built on demand.
pub trait CompositeView<Color>: Sized {
    /// The type of the tree that `body` builds.
    type Body: View<Color>;

    /// The tree that stands for this value.
    spec fn body_view(&self) -> Self::Body;

    /// Builds the tree that stands for this value.
    fn body(&self) -> (b: Self::Body)
        ensures
            b == self.body_view(),
    ;

    /// Wraps this value so that it can stand in a view tree.
    fn as_view(self) -> (v: AsView<Self>)
        ensures
            v.composite() == self,
    {
        AsView(self)
    }
}

/// A composite value standing in a view tree: it measures and draws as its
/// body does.
pub struct AsView<T>(T);

impl<T> AsView<T> {
    /// The value that stands in the tree.
    pub closed spec fn composite(self) -> T {
        self.0
    }
}

impl<T, Color> View<Color> for AsView<T> where T: CompositeView<Color> {
    open spec fn can_measure(&self, available: Size) -> bool {
        self.composite().body_view().can_measure(available)
    }

    open spec fn measure(&self, available: Size) -> Size {
        self.composite().body_view().measure(available)
    }

    open spec fn can_render(&self, size: Size, offset: Point) -> bool {
        self.composite().body_view().can_render(size, offset)
    }

    open spec fn render(&self, size: Size, offset: Point) -> Seq<DrawOp<Color>> {
        self.composite().body_view().render(size, offset)
    }

    fn try_size(&self, available: Size) -> (s: Option<Size>) {
        self.0.body().try_size(available)
    }

    fn size(&self, available_size: Size) -> (s: Size) {
        self.0.body().size(available_size)
    }

    fn can_draw(&self, size: Size, offset: Point) -> (ok: bool) {
        self.0.body().can_draw(size, offset)
    }

    fn draw(&self, size: Size, draw_target: &mut LayoutDrawTarget<'_, Color>) {
        self.0.body().draw(size, draw_target);
    }
}

/// Draws `view` where it can be drawn, and says whether it was. Where it
/// cannot, the target is left as it was.
pub fn try_draw<Color, V: View<Color>>(
    view: &V,
    size: Size,
    draw_target: &mut LayoutDrawTarget<'_, Color>,
) -> (drawn: bool)
    ensures
        drawn == view.can_render(size, old(draw_target).offset),
        final(draw_target).extends(
            *old(draw_target),
            if drawn {
                view.render(size, old(draw_target).offset)
            } else {
                Seq::empty()
            },
        ),
        *final(final(draw_target).original_draw_target)
            == *final(old(draw_target).original_draw_target),
{
    if view.can_draw(size, draw_target.offset) {
        view.draw(size, draw_target);
        true
    } else {
        false
    }
}

/// A borrowed view can be measured and drawn where the view can, and
/// answers as the view does.
pub proof fn lemma_borrowing_changes_nothing<Color, V: View<Color>>(
    view: &V,
    available: Size,
    size: Size,
    offset: Point,
)
    ensures
        view.can_measure(available) == (*view).can_measure(available),
        view.measure(available) == (*view).measure(available),
        view.can_render(size, offset) == (*view).can_render(size, offset),
        view.render(size, offset) == (*view).render(size, offset),
{
}

/// Measuring a view twice against the same available size gives the same
/// size twice: whatever two calls of `size` return, they return the same.
pub proof fn lemma_measuring_again_changes_nothing<Color, V: View<Color>>(
    view: V,
    available: Size,
    first: Size,
    second: Size,
)
    requires
        first == view.measure(available),
        second == view.measure(available),
    ensures
        first == second,
{
}

/// Drawing a view twice asks the surface the same twice over: where `middle`
/// is `before` after one drawing of `view` and `after` is `middle` after
/// another, the second drawing started from the same offset as the first and
/// added what the first had added.
pub proof fn lemma_drawing_again_repeats<Color, V: View<Color>>(
    view: V,
    size: Size,
    before: LayoutDrawTarget<'_, Color>,
    middle: LayoutDrawTarget<'_, Color>,
    after: LayoutDrawTarget<'_, Color>,
)
    requires
        middle.extends(before, view.render(size, before.offset)),
        after.extends(middle, view.render(size, middle.offset)),
    ensures
        after.offset == before.offset,
        after.dimensions() == before.dimensions(),
        after.ops() == before.ops() + view.render(size, before.offset) + view.render(
            size,
            before.offset,
        ),
        after.ops().subrange(middle.ops().len() as int, after.ops().len() as int)
            == middle.ops().subrange(before.ops().len() as int, middle.ops().len() as int),
{
    let added = view.render(size, before.offset);
    assert(middle.ops() =~= before.ops() + added);
    assert(after.ops() =~= before.ops() + added + added);
    assert(after.ops().subrange(middle.ops().len() as int, after.ops().len() as int) =~= added);
    assert(middle.ops().subrange(before.ops().len() as int, middle.ops().len() as int)
        =~= added);
}

} // verus!
