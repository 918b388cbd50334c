//! One of two views of different types, chosen when the tree is built.

use vstd::prelude::*;
use crate::draw_target::{DrawOp, LayoutDrawTarget};
use crate::geometry::{Point, Size};
use crate::view::View;

verus! {

/// Holds exactly one of two views and is, in every respect, the view it holds.
pub enum Either<A, B> {
    Left(A),
    Right(B),
}

impl<A, B, Color> View<Color> for Either<A, B> where A: View<Color>, B: View<Color> {
    open spec fn can_measure(&self, available: Size) -> bool {
        match self {
            Either::Left(view) => view.can_measure(available),
            Either::Right(view) => view.can_measure(available),
        }
    }

    open spec fn measure(&self, available: Size) -> Size {
        match self {
            Either::Left(view) => view.measure(available),
            Either::Right(view) => view.measure(available),
        }
    }

    open spec fn can_render(&self, size: Size, offset: Point) -> bool {
        match self {
            Either::Left(view) => view.can_render(size, offset),
            Either::Right(view) => view.can_render(size, offset),
        }
    }

    open spec fn render(&self, size: Size, offset: Point) -> Seq<DrawOp<Color>> {
        match self {
            Either::Left(view) => view.render(size, offset),
            Either::Right(view) => view.render(size, offset),
        }
    }

    fn try_size(&self, available: Size) -> (s: Option<Size>) {
        match self {
            Either::Left(view) => view.try_size(available),
            Either::Right(view) => view.try_size(available),
        }
    }

    fn size(&self, available_size: Size) -> (s: Size) {
        match self {
            Either::Left(view) => view.size(available_size),
            Either::Right(view) => view.size(available_size),
        }
    }

    fn can_draw(&self, size: Size, offset: Point) -> (ok: bool) {
        match self {
            Either::Left(view) => view.can_draw(size, offset),
            Either::Right(view) => view.can_draw(size, offset),
        }
    }

    fn draw(&self, size: Size, draw_target: &mut LayoutDrawTarget<'_, Color>) {
        match self {
            Either::Left(view) => view.draw(size, draw_target),
            Either::Right(view) => view.draw(size, draw_target),
        }
    }
}

/// A branch that holds its left view is that view: it can be measured and
/// drawn where the view can, and answers as the view does.
pub proof fn lemma_left_branch_is_its_view<Color, A: View<Color>, B: View<Color>>(
    view: A,
    available: Size,
    size: Size,
    offset: Point,
)
    ensures
        Either::<A, B>::Left(view).can_measure(available) == view.can_measure(available),
        Either::<A, B>::Left(view).measure(available) == view.measure(available),
        Either::<A, B>::Left(view).can_render(size, offset) == view.can_render(size, offset),
        Either::<A, B>::Left(view).render(size, offset) == view.render(size, offset),
{
}

/// A branch that holds its right view is that view: it can be measured and
/// drawn where the view can, and answers as the view does.
pub proof fn lemma_right_branch_is_its_view<Color, A: View<Color>, B: View<Color>>(
    view: B,
    available: Size,
    size: Size,
    offset: Point,
)
    ensures
        Either::<A, B>::Right(view).can_measure(available) == view.can_measure(available),
        Either::<A, B>::Right(view).measure(available) == view.measure(available),
        Either::<A, B>::Right(view).can_render(size, offset) == view.can_render(size, offset),
        Either::<A, B>::Right(view).render(size, offset) == view.render(size, offset),
{
}

} // verus!
