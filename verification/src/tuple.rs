//! A fixed number of views of any types, told apart by position.

use vstd::prelude::*;
use crate::draw_target::{DrawOp, LayoutDrawTarget};
use crate::geometry::{Point, Size};
use crate::view::View;

verus! {

/// The children of a stack: between one and ten views, each of a type of
/// its own, reached by position. Position `index` is measured and drawn as
/// the view that stands there is.
pub trait ViewTuple<Color> {
    /// How many views there are.
    spec fn count(&self) -> nat;

    /// Whether the view at `index` can be measured against `available`.
    spec fn can_measure_child(&self, index: int, available: Size) -> bool;

    /// The size of the view at `index` within `available`.
    spec fn measure_child(&self, index: int, available: Size) -> Size;

    /// Whether the view at `index` can be drawn at `size` with its origin at
    /// `offset`.
    spec fn can_render_child(&self, index: int, size: Size, offset: Point) -> bool;

    /// What the view at `index` asks of the surface when it is drawn at
    /// `size` with its origin at `offset`.
    spec fn render_child(&self, index: int, size: Size, offset: Point) -> Seq<DrawOp<Color>>;

    /// Counts the views.
    fn len(&self) -> (n: u32)
        ensures
            n == self.count(),
            n >= 1,
    ;

    /// Measures the view at `index`, or finds that it cannot be measured.
    fn try_child_size(&self, index: u32, available: Size) -> (s: Option<Size>)
        requires
            index < self.count(),
        ensures
            s == if self.can_measure_child(index as int, available) {
                Some(self.measure_child(index as int, available))
            } else {
                None
            },
    ;

    /// Measures the view at `index`.
    fn child_size(&self, index: u32, available: Size) -> (s: Size)
        requires
            index < self.count(),
            self.can_measure_child(index as int, available),
        ensures
            s == self.measure_child(index as int, available),
    ;

    /// Tests whether the view at `index` can be drawn.
    fn can_draw_child(&self, index: u32, size: Size, offset: Point) -> (ok: bool)
        requires
            index < self.count(),
        ensures
            ok == self.can_render_child(index as int, size, offset),
    ;

    /// Draws the view at `index`.
    fn draw_child(&self, index: u32, size: Size, draw_target: &mut LayoutDrawTarget<'_, Color>)
        requires
            index < self.count(),
            self.can_render_child(index as int, size, old(draw_target).offset),
        ensures
            final(draw_target).extends(
                *old(draw_target),
                self.render_child(index as int, size, old(draw_target).offset),
            ),
            *final(final(draw_target).original_draw_target)
                == *final(old(draw_target).original_draw_target),
    ;
}

impl<Color, V1: View<Color>> ViewTuple<Color> for (V1,) {
    open spec fn count(&self) -> nat {
        1
    }

    open spec fn can_measure_child(&self, index: int, available: Size) -> bool {
        self.0.can_measure(available)
    }

    open spec fn measure_child(&self, index: int, available: Size) -> Size {
        self.0.measure(available)
    }

    open spec fn can_render_child(&self, index: int, size: Size, offset: Point) -> bool {
        self.0.can_render(size, offset)
    }

    open spec fn render_child(&self, index: int, size: Size, offset: Point) -> Seq<DrawOp<Color>> {
        self.0.render(size, offset)
    }

    fn len(&self) -> (n: u32) {
        1
    }

    fn try_child_size(&self, index: u32, available: Size) -> (s: Option<Size>) {
        self.0.try_size(available)
    }

    fn child_size(&self, index: u32, available: Size) -> (s: Size) {
        self.0.size(available)
    }

    fn can_draw_child(&self, index: u32, size: Size, offset: Point) -> (ok: bool) {
        self.0.can_draw(size, offset)
    }

    fn draw_child(&self, index: u32, size: Size, draw_target: &mut LayoutDrawTarget<'_, Color>) {
        self.0.draw(size, draw_target)
    }
}

impl<Color, V1: View<Color>, V2: View<Color>> ViewTuple<Color> for (V1, V2) {
    open spec fn count(&self) -> nat {
        2
    }

    open spec fn can_measure_child(&self, index: int, available: Size) -> bool {
        if index == 0 {
            self.0.can_measure(available)
        } else {
            self.1.can_measure(available)
        }
    }

    open spec fn measure_child(&self, index: int, available: Size) -> Size {
        if index == 0 {
            self.0.measure(available)
        } else {
            self.1.measure(available)
        }
    }

    open spec fn can_render_child(&self, index: int, size: Size, offset: Point) -> bool {
        if index == 0 {
            self.0.can_render(size, offset)
        } else {
            self.1.can_render(size, offset)
        }
    }

    open spec fn render_child(&self, index: int, size: Size, offset: Point) -> Seq<DrawOp<Color>> {
        if index == 0 {
            self.0.render(size, offset)
        } else {
            self.1.render(size, offset)
        }
    }

    fn len(&self) -> (n: u32) {
        2
    }

    fn try_child_size(&self, index: u32, available: Size) -> (s: Option<Size>) {
        match index {
            0 => self.0.try_size(available),
            _ => self.1.try_size(available),
        }
    }

    fn child_size(&self, index: u32, available: Size) -> (s: Size) {
        match index {
            0 => self.0.size(available),
            _ => self.1.size(available),
        }
    }

    fn can_draw_child(&self, index: u32, size: Size, offset: Point) -> (ok: bool) {
        match index {
            0 => self.0.can_draw(size, offset),
            _ => self.1.can_draw(size, offset),
        }
    }

    fn draw_child(&self, index: u32, size: Size, draw_target: &mut LayoutDrawTarget<'_, Color>) {
        match index {
            0 => self.0.draw(size, draw_target),
            _ => self.1.draw(size, draw_target),
        }
    }
}

impl<Color, V1: View<Color>, V2: View<Color>, V3: View<Color>> ViewTuple<Color> for (V1, V2, V3) {
    open spec fn count(&self) -> nat {
        3
    }

    open spec fn can_measure_child(&self, index: int, available: Size) -> bool {
        if index == 0 {
            self.0.can_measure(available)
        } else if index == 1 {
            self.1.can_measure(available)
        } else {
            self.2.can_measure(available)
        }
    }

    open spec fn measure_child(&self, index: int, available: Size) -> Size {
        if index == 0 {
            self.0.measure(available)
        } else if index == 1 {
            self.1.measure(available)
        } else {
            self.2.measure(available)
        }
    }

    open spec fn can_render_child(&self, index: int, size: Size, offset: Point) -> bool {
        if index == 0 {
            self.0.can_render(size, offset)
        } else if index == 1 {
            self.1.can_render(size, offset)
        } else {
            self.2.can_render(size, offset)
        }
    }

    open spec fn render_child(&self, index: int, size: Size, offset: Point) -> Seq<DrawOp<Color>> {
        if index == 0 {
            self.0.render(size, offset)
        } else if index == 1 {
            self.1.render(size, offset)
        } else {
            self.2.render(size, offset)
        }
    }

    fn len(&self) -> (n: u32) {
        3
    }

    fn try_child_size(&self, index: u32, available: Size) -> (s: Option<Size>) {
        match index {
            0 => self.0.try_size(available),
            1 => self.1.try_size(available),
            _ => self.2.try_size(available),
        }
    }

    fn child_size(&self, index: u32, available: Size) -> (s: Size) {
        match index {
            0 => self.0.size(available),
            1 => self.1.size(available),
            _ => self.2.size(available),
        }
    }

    fn can_draw_child(&self, index: u32, size: Size, offset: Point) -> (ok: bool) {
        match index {
            0 => self.0.can_draw(size, offset),
            1 => self.1.can_draw(size, offset),
            _ => self.2.can_draw(size, offset),
        }
    }

    fn draw_child(&self, index: u32, size: Size, draw_target: &mut LayoutDrawTarget<'_, Color>) {
        match index {
            0 => self.0.draw(size, draw_target),
            1 => self.1.draw(size, draw_target),
            _ => self.2.draw(size, draw_target),
        }
    }
}

impl<Color, V1: View<Color>, V2: View<Color>, V3: View<Color>, V4: View<Color>> ViewTuple<Color> for (V1, V2, V3, V4) {
    open spec fn count(&self) -> nat {
        4
    }

    open spec fn can_measure_child(&self, index: int, available: Size) -> bool {
        if index == 0 {
            self.0.can_measure(available)
        } else if index == 1 {
            self.1.can_measure(available)
        } else if index == 2 {
            self.2.can_measure(available)
        } else {
            self.3.can_measure(available)
        }
    }

    open spec fn measure_child(&self, index: int, available: Size) -> Size {
        if index == 0 {
            self.0.measure(available)
        } else if index == 1 {
            self.1.measure(available)
        } else if index == 2 {
            self.2.measure(available)
        } else {
            self.3.measure(available)
        }
    }

    open spec fn can_render_child(&self, index: int, size: Size, offset: Point) -> bool {
        if index == 0 {
            self.0.can_render(size, offset)
        } else if index == 1 {
            self.1.can_render(size, offset)
        } else if index == 2 {
            self.2.can_render(size, offset)
        } else {
            self.3.can_render(size, offset)
        }
    }

    open spec fn render_child(&self, index: int, size: Size, offset: Point) -> Seq<DrawOp<Color>> {
        if index == 0 {
            self.0.render(size, offset)
        } else if index == 1 {
            self.1.render(size, offset)
        } else if index == 2 {
            self.2.render(size, offset)
        } else {
            self.3.render(size, offset)
        }
    }

    fn len(&self) -> (n: u32) {
        4
    }

    fn try_child_size(&self, index: u32, available: Size) -> (s: Option<Size>) {
        match index {
            0 => self.0.try_size(available),
            1 => self.1.try_size(available),
            2 => self.2.try_size(available),
            _ => self.3.try_size(available),
        }
    }

    fn child_size(&self, index: u32, available: Size) -> (s: Size) {
        match index {
            0 => self.0.size(available),
            1 => self.1.size(available),
            2 => self.2.size(available),
            _ => self.3.size(available),
        }
    }

    fn can_draw_child(&self, index: u32, size: Size, offset: Point) -> (ok: bool) {
        match index {
            0 => self.0.can_draw(size, offset),
            1 => self.1.can_draw(size, offset),
            2 => self.2.can_draw(size, offset),
            _ => self.3.can_draw(size, offset),
        }
    }

    fn draw_child(&self, index: u32, size: Size, draw_target: &mut LayoutDrawTarget<'_, Color>) {
        match index {
            0 => self.0.draw(size, draw_target),
            1 => self.1.draw(size, draw_target),
            2 => self.2.draw(size, draw_target),
            _ => self.3.draw(size, draw_target),
        }
    }
}

impl<Color, V1: View<Color>, V2: View<Color>, V3: View<Color>, V4: View<Color>, V5: View<Color>> ViewTuple<Color> for (V1, V2, V3, V4, V5) {
    open spec fn count(&self) -> nat {
        5
    }

    open spec fn can_measure_child(&self, index: int, available: Size) -> bool {
        if index == 0 {
            self.0.can_measure(available)
        } else if index == 1 {
            self.1.can_measure(available)
        } else if index == 2 {
            self.2.can_measure(available)
        } else if index == 3 {
            self.3.can_measure(available)
        } else {
            self.4.can_measure(available)
        }
    }

    open spec fn measure_child(&self, index: int, available: Size) -> Size {
        if index == 0 {
            self.0.measure(available)
        } else if index == 1 {
            self.1.measure(available)
        } else if index == 2 {
            self.2.measure(available)
        } else if index == 3 {
            self.3.measure(available)
        } else {
            self.4.measure(available)
        }
    }

    open spec fn can_render_child(&self, index: int, size: Size, offset: Point) -> bool {
        if index == 0 {
            self.0.can_render(size, offset)
        } else if index == 1 {
            self.1.can_render(size, offset)
        } else if index == 2 {
            self.2.can_render(size, offset)
        } else if index == 3 {
            self.3.can_render(size, offset)
        } else {
            self.4.can_render(size, offset)
        }
    }

    open spec fn render_child(&self, index: int, size: Size, offset: Point) -> Seq<DrawOp<Color>> {
        if index == 0 {
            self.0.render(size, offset)
        } else if index == 1 {
            self.1.render(size, offset)
        } else if index == 2 {
            self.2.render(size, offset)
        } else if index == 3 {
            self.3.render(size, offset)
        } else {
            self.4.render(size, offset)
        }
    }

    fn len(&self) -> (n: u32) {
        5
    }

    fn try_child_size(&self, index: u32, available: Size) -> (s: Option<Size>) {
        match index {
            0 => self.0.try_size(available),
            1 => self.1.try_size(available),
            2 => self.2.try_size(available),
            3 => self.3.try_size(available),
            _ => self.4.try_size(available),
        }
    }

    fn child_size(&self, index: u32, available: Size) -> (s: Size) {
        match index {
            0 => self.0.size(available),
            1 => self.1.size(available),
            2 => self.2.size(available),
            3 => self.3.size(available),
            _ => self.4.size(available),
        }
    }

    fn can_draw_child(&self, index: u32, size: Size, offset: Point) -> (ok: bool) {
        match index {
            0 => self.0.can_draw(size, offset),
            1 => self.1.can_draw(size, offset),
            2 => self.2.can_draw(size, offset),
            3 => self.3.can_draw(size, offset),
            _ => self.4.can_draw(size, offset),
        }
    }

    fn draw_child(&self, index: u32, size: Size, draw_target: &mut LayoutDrawTarget<'_, Color>) {
        match index {
            0 => self.0.draw(size, draw_target),
            1 => self.1.draw(size, draw_target),
            2 => self.2.draw(size, draw_target),
            3 => self.3.draw(size, draw_target),
            _ => self.4.draw(size, draw_target),
        }
    }
}

impl<Color, V1: View<Color>, V2: View<Color>, V3: View<Color>, V4: View<Color>, V5: View<Color>, V6: View<Color>> ViewTuple<Color> for (V1, V2, V3, V4, V5, V6) {
    open spec fn count(&self) -> nat {
        6
    }

    open spec fn can_measure_child(&self, index: int, available: Size) -> bool {
        if index == 0 {
            self.0.can_measure(available)
        } else if index == 1 {
            self.1.can_measure(available)
        } else if index == 2 {
            self.2.can_measure(available)
        } else if index == 3 {
            self.3.can_measure(available)
        } else if index == 4 {
            self.4.can_measure(available)
        } else {
            self.5.can_measure(available)
        }
    }

    open spec fn measure_child(&self, index: int, available: Size) -> Size {
        if index == 0 {
            self.0.measure(available)
        } else if index == 1 {
            self.1.measure(available)
        } else if index == 2 {
            self.2.measure(available)
        } else if index == 3 {
            self.3.measure(available)
        } else if index == 4 {
            self.4.measure(available)
        } else {
            self.5.measure(available)
        }
    }

    open spec fn can_render_child(&self, index: int, size: Size, offset: Point) -> bool {
        if index == 0 {
            self.0.can_render(size, offset)
        } else if index == 1 {
            self.1.can_render(size, offset)
        } else if index == 2 {
            self.2.can_render(size, offset)
        } else if index == 3 {
            self.3.can_render(size, offset)
        } else if index == 4 {
            self.4.can_render(size, offset)
        } else {
            self.5.can_render(size, offset)
        }
    }

    open spec fn render_child(&self, index: int, size: Size, offset: Point) -> Seq<DrawOp<Color>> {
        if index == 0 {
            self.0.render(size, offset)
        } else if index == 1 {
            self.1.render(size, offset)
        } else if index == 2 {
            self.2.render(size, offset)
        } else if index == 3 {
            self.3.render(size, offset)
        } else if index == 4 {
            self.4.render(size, offset)
        } else {
            self.5.render(size, offset)
        }
    }

    fn len(&self) -> (n: u32) {
        6
    }

    fn try_child_size(&self, index: u32, available: Size) -> (s: Option<Size>) {
        match index {
            0 => self.0.try_size(available),
            1 => self.1.try_size(available),
            2 => self.2.try_size(available),
            3 => self.3.try_size(available),
            4 => self.4.try_size(available),
            _ => self.5.try_size(available),
        }
    }

    fn child_size(&self, index: u32, available: Size) -> (s: Size) {
        match index {
            0 => self.0.size(available),
            1 => self.1.size(available),
            2 => self.2.size(available),
            3 => self.3.size(available),
            4 => self.4.size(available),
            _ => self.5.size(available),
        }
    }

    fn can_draw_child(&self, index: u32, size: Size, offset: Point) -> (ok: bool) {
        match index {
            0 => self.0.can_draw(size, offset),
            1 => self.1.can_draw(size, offset),
            2 => self.2.can_draw(size, offset),
            3 => self.3.can_draw(size, offset),
            4 => self.4.can_draw(size, offset),
            _ => self.5.can_draw(size, offset),
        }
    }

    fn draw_child(&self, index: u32, size: Size, draw_target: &mut LayoutDrawTarget<'_, Color>) {
        match index {
            0 => self.0.draw(size, draw_target),
            1 => self.1.draw(size, draw_target),
            2 => self.2.draw(size, draw_target),
            3 => self.3.draw(size, draw_target),
            4 => self.4.draw(size, draw_target),
            _ => self.5.draw(size, draw_target),
        }
    }
}

impl<Color, V1: View<Color>, V2: View<Color>, V3: View<Color>, V4: View<Color>, V5: View<Color>, V6: View<Color>, V7: View<Color>> ViewTuple<Color> for (V1, V2, V3, V4, V5, V6, V7) {
    open spec fn count(&self) -> nat {
        7
    }

    open spec fn can_measure_child(&self, index: int, available: Size) -> bool {
        if index == 0 {
            self.0.can_measure(available)
        } else if index == 1 {
            self.1.can_measure(available)
        } else if index == 2 {
            self.2.can_measure(available)
        } else if index == 3 {
            self.3.can_measure(available)
        } else if index == 4 {
            self.4.can_measure(available)
        } else if index == 5 {
            self.5.can_measure(available)
        } else {
            self.6.can_measure(available)
        }
    }

    open spec fn measure_child(&self, index: int, available: Size) -> Size {
        if index == 0 {
            self.0.measure(available)
        } else if index == 1 {
            self.1.measure(available)
        } else if index == 2 {
            self.2.measure(available)
        } else if index == 3 {
            self.3.measure(available)
        } else if index == 4 {
            self.4.measure(available)
        } else if index == 5 {
            self.5.measure(available)
        } else {
            self.6.measure(available)
        }
    }

    open spec fn can_render_child(&self, index: int, size: Size, offset: Point) -> bool {
        if index == 0 {
            self.0.can_render(size, offset)
        } else if index == 1 {
            self.1.can_render(size, offset)
        } else if index == 2 {
            self.2.can_render(size, offset)
        } else if index == 3 {
            self.3.can_render(size, offset)
        } else if index == 4 {
            self.4.can_render(size, offset)
        } else if index == 5 {
            self.5.can_render(size, offset)
        } else {
            self.6.can_render(size, offset)
        }
    }

    open spec fn render_child(&self, index: int, size: Size, offset: Point) -> Seq<DrawOp<Color>> {
        if index == 0 {
            self.0.render(size, offset)
        } else if index == 1 {
            self.1.render(size, offset)
        } else if index == 2 {
            self.2.render(size, offset)
        } else if index == 3 {
            self.3.render(size, offset)
        } else if index == 4 {
            self.4.render(size, offset)
        } else if index == 5 {
            self.5.render(size, offset)
        } else {
            self.6.render(size, offset)
        }
    }

    fn len(&self) -> (n: u32) {
        7
    }

    fn try_child_size(&self, index: u32, available: Size) -> (s: Option<Size>) {
        match index {
            0 => self.0.try_size(available),
            1 => self.1.try_size(available),
            2 => self.2.try_size(available),
            3 => self.3.try_size(available),
            4 => self.4.try_size(available),
            5 => self.5.try_size(available),
            _ => self.6.try_size(available),
        }
    }

    fn child_size(&self, index: u32, available: Size) -> (s: Size) {
        match index {
            0 => self.0.size(available),
            1 => self.1.size(available),
            2 => self.2.size(available),
            3 => self.3.size(available),
            4 => self.4.size(available),
            5 => self.5.size(available),
            _ => self.6.size(available),
        }
    }

    fn can_draw_child(&self, index: u32, size: Size, offset: Point) -> (ok: bool) {
        match index {
            0 => self.0.can_draw(size, offset),
            1 => self.1.can_draw(size, offset),
            2 => self.2.can_draw(size, offset),
            3 => self.3.can_draw(size, offset),
            4 => self.4.can_draw(size, offset),
            5 => self.5.can_draw(size, offset),
            _ => self.6.can_draw(size, offset),
        }
    }

    fn draw_child(&self, index: u32, size: Size, draw_target: &mut LayoutDrawTarget<'_, Color>) {
        match index {
            0 => self.0.draw(size, draw_target),
            1 => self.1.draw(size, draw_target),
            2 => self.2.draw(size, draw_target),
            3 => self.3.draw(size, draw_target),
            4 => self.4.draw(size, draw_target),
            5 => self.5.draw(size, draw_target),
            _ => self.6.draw(size, draw_target),
        }
    }
}

impl<Color, V1: View<Color>, V2: View<Color>, V3: View<Color>, V4: View<Color>, V5: View<Color>, V6: View<Color>, V7: View<Color>, V8: View<Color>> ViewTuple<Color> for (V1, V2, V3, V4, V5, V6, V7, V8) {
    open spec fn count(&self) -> nat {
        8
    }

    open spec fn can_measure_child(&self, index: int, available: Size) -> bool {
        if index == 0 {
            self.0.can_measure(available)
        } else if index == 1 {
            self.1.can_measure(available)
        } else if index == 2 {
            self.2.can_measure(available)
        } else if index == 3 {
            self.3.can_measure(available)
        } else if index == 4 {
            self.4.can_measure(available)
        } else if index == 5 {
            self.5.can_measure(available)
        } else if index == 6 {
            self.6.can_measure(available)
        } else {
            self.7.can_measure(available)
        }
    }

    open spec fn measure_child(&self, index: int, available: Size) -> Size {
        if index == 0 {
            self.0.measure(available)
        } else if index == 1 {
            self.1.measure(available)
        } else if index == 2 {
            self.2.measure(available)
        } else if index == 3 {
            self.3.measure(available)
        } else if index == 4 {
            self.4.measure(available)
        } else if index == 5 {
            self.5.measure(available)
        } else if index == 6 {
            self.6.measure(available)
        } else {
            self.7.measure(available)
        }
    }

    open spec fn can_render_child(&self, index: int, size: Size, offset: Point) -> bool {
        if index == 0 {
            self.0.can_render(size, offset)
        } else if index == 1 {
            self.1.can_render(size, offset)
        } else if index == 2 {
            self.2.can_render(size, offset)
        } else if index == 3 {
            self.3.can_render(size, offset)
        } else if index == 4 {
            self.4.can_render(size, offset)
        } else if index == 5 {
            self.5.can_render(size, offset)
        } else if index == 6 {
            self.6.can_render(size, offset)
        } else {
            self.7.can_render(size, offset)
        }
    }

    open spec fn render_child(&self, index: int, size: Size, offset: Point) -> Seq<DrawOp<Color>> {
        if index == 0 {
            self.0.render(size, offset)
        } else if index == 1 {
            self.1.render(size, offset)
        } else if index == 2 {
            self.2.render(size, offset)
        } else if index == 3 {
            self.3.render(size, offset)
        } else if index == 4 {
            self.4.render(size, offset)
        } else if index == 5 {
            self.5.render(size, offset)
        } else if index == 6 {
            self.6.render(size, offset)
        } else {
            self.7.render(size, offset)
        }
    }

    fn len(&self) -> (n: u32) {
        8
    }

    fn try_child_size(&self, index: u32, available: Size) -> (s: Option<Size>) {
        match index {
            0 => self.0.try_size(available),
            1 => self.1.try_size(available),
            2 => self.2.try_size(available),
            3 => self.3.try_size(available),
            4 => self.4.try_size(available),
            5 => self.5.try_size(available),
            6 => self.6.try_size(available),
            _ => self.7.try_size(available),
        }
    }

    fn child_size(&self, index: u32, available: Size) -> (s: Size) {
        match index {
            0 => self.0.size(available),
            1 => self.1.size(available),
            2 => self.2.size(available),
            3 => self.3.size(available),
            4 => self.4.size(available),
            5 => self.5.size(available),
            6 => self.6.size(available),
            _ => self.7.size(available),
        }
    }

    fn can_draw_child(&self, index: u32, size: Size, offset: Point) -> (ok: bool) {
        match index {
            0 => self.0.can_draw(size, offset),
            1 => self.1.can_draw(size, offset),
            2 => self.2.can_draw(size, offset),
            3 => self.3.can_draw(size, offset),
            4 => self.4.can_draw(size, offset),
            5 => self.5.can_draw(size, offset),
            6 => self.6.can_draw(size, offset),
            _ => self.7.can_draw(size, offset),
        }
    }

    fn draw_child(&self, index: u32, size: Size, draw_target: &mut LayoutDrawTarget<'_, Color>) {
        match index {
            0 => self.0.draw(size, draw_target),
            1 => self.1.draw(size, draw_target),
            2 => self.2.draw(size, draw_target),
            3 => self.3.draw(size, draw_target),
            4 => self.4.draw(size, draw_target),
            5 => self.5.draw(size, draw_target),
            6 => self.6.draw(size, draw_target),
            _ => self.7.draw(size, draw_target),
        }
    }
}

impl<Color, V1: View<Color>, V2: View<Color>, V3: View<Color>, V4: View<Color>, V5: View<Color>, V6: View<Color>, V7: View<Color>, V8: View<Color>, V9: View<Color>> ViewTuple<Color> for (V1, V2, V3, V4, V5, V6, V7, V8, V9) {
    open spec fn count(&self) -> nat {
        9
    }

    open spec fn can_measure_child(&self, index: int, available: Size) -> bool {
        if index == 0 {
            self.0.can_measure(available)
        } else if index == 1 {
            self.1.can_measure(available)
        } else if index == 2 {
            self.2.can_measure(available)
        } else if index == 3 {
            self.3.can_measure(available)
        } else if index == 4 {
            self.4.can_measure(available)
        } else if index == 5 {
            self.5.can_measure(available)
        } else if index == 6 {
            self.6.can_measure(available)
        } else if index == 7 {
            self.7.can_measure(available)
        } else {
            self.8.can_measure(available)
        }
    }

    open spec fn measure_child(&self, index: int, available: Size) -> Size {
        if index == 0 {
            self.0.measure(available)
        } else if index == 1 {
            self.1.measure(available)
        } else if index == 2 {
            self.2.measure(available)
        } else if index == 3 {
            self.3.measure(available)
        } else if index == 4 {
            self.4.measure(available)
        } else if index == 5 {
            self.5.measure(available)
        } else if index == 6 {
            self.6.measure(available)
        } else if index == 7 {
            self.7.measure(available)
        } else {
            self.8.measure(available)
        }
    }

    open spec fn can_render_child(&self, index: int, size: Size, offset: Point) -> bool {
        if index == 0 {
            self.0.can_render(size, offset)
        } else if index == 1 {
            self.1.can_render(size, offset)
        } else if index == 2 {
            self.2.can_render(size, offset)
        } else if index == 3 {
            self.3.can_render(size, offset)
        } else if index == 4 {
            self.4.can_render(size, offset)
        } else if index == 5 {
            self.5.can_render(size, offset)
        } else if index == 6 {
            self.6.can_render(size, offset)
        } else if index == 7 {
            self.7.can_render(size, offset)
        } else {
            self.8.can_render(size, offset)
        }
    }

    open spec fn render_child(&self, index: int, size: Size, offset: Point) -> Seq<DrawOp<Color>> {
        if index == 0 {
            self.0.render(size, offset)
        } else if index == 1 {
            self.1.render(size, offset)
        } else if index == 2 {
            self.2.render(size, offset)
        } else if index == 3 {
            self.3.render(size, offset)
        } else if index == 4 {
            self.4.render(size, offset)
        } else if index == 5 {
            self.5.render(size, offset)
        } else if index == 6 {
            self.6.render(size, offset)
        } else if index == 7 {
            self.7.render(size, offset)
        } else {
            self.8.render(size, offset)
        }
    }

    fn len(&self) -> (n: u32) {
        9
    }

    fn try_child_size(&self, index: u32, available: Size) -> (s: Option<Size>) {
        match index {
            0 => self.0.try_size(available),
            1 => self.1.try_size(available),
            2 => self.2.try_size(available),
            3 => self.3.try_size(available),
            4 => self.4.try_size(available),
            5 => self.5.try_size(available),
            6 => self.6.try_size(available),
            7 => self.7.try_size(available),
            _ => self.8.try_size(available),
        }
    }

    fn child_size(&self, index: u32, available: Size) -> (s: Size) {
        match index {
            0 => self.0.size(available),
            1 => self.1.size(available),
            2 => self.2.size(available),
            3 => self.3.size(available),
            4 => self.4.size(available),
            5 => self.5.size(available),
            6 => self.6.size(available),
            7 => self.7.size(available),
            _ => self.8.size(available),
        }
    }

    fn can_draw_child(&self, index: u32, size: Size, offset: Point) -> (ok: bool) {
        match index {
            0 => self.0.can_draw(size, offset),
            1 => self.1.can_draw(size, offset),
            2 => self.2.can_draw(size, offset),
            3 => self.3.can_draw(size, offset),
            4 => self.4.can_draw(size, offset),
            5 => self.5.can_draw(size, offset),
            6 => self.6.can_draw(size, offset),
            7 => self.7.can_draw(size, offset),
            _ => self.8.can_draw(size, offset),
        }
    }

    fn draw_child(&self, index: u32, size: Size, draw_target: &mut LayoutDrawTarget<'_, Color>) {
        match index {
            0 => self.0.draw(size, draw_target),
            1 => self.1.draw(size, draw_target),
            2 => self.2.draw(size, draw_target),
            3 => self.3.draw(size, draw_target),
            4 => self.4.draw(size, draw_target),
            5 => self.5.draw(size, draw_target),
            6 => self.6.draw(size, draw_target),
            7 => self.7.draw(size, draw_target),
            _ => self.8.draw(size, draw_target),
        }
    }
}

impl<Color, V1: View<Color>, V2: View<Color>, V3: View<Color>, V4: View<Color>, V5: View<Color>, V6: View<Color>, V7: View<Color>, V8: View<Color>, V9: View<Color>, V10: View<Color>> ViewTuple<Color> for (V1, V2, V3, V4, V5, V6, V7, V8, V9, V10) {
    open spec fn count(&self) -> nat {
        10
    }

    open spec fn can_measure_child(&self, index: int, available: Size) -> bool {
        if index == 0 {
            self.0.can_measure(available)
        } else if index == 1 {
            self.1.can_measure(available)
        } else if index == 2 {
            self.2.can_measure(available)
        } else if index == 3 {
            self.3.can_measure(available)
        } else if index == 4 {
            self.4.can_measure(available)
        } else if index == 5 {
            self.5.can_measure(available)
        } else if index == 6 {
            self.6.can_measure(available)
        } else if index == 7 {
            self.7.can_measure(available)
        } else if index == 8 {
            self.8.can_measure(available)
        } else {
            self.9.can_measure(available)
        }
    }

    open spec fn measure_child(&self, index: int, available: Size) -> Size {
        if index == 0 {
            self.0.measure(available)
        } else if index == 1 {
            self.1.measure(available)
        } else if index == 2 {
            self.2.measure(available)
        } else if index == 3 {
            self.3.measure(available)
        } else if index == 4 {
            self.4.measure(available)
        } else if index == 5 {
            self.5.measure(available)
        } else if index == 6 {
            self.6.measure(available)
        } else if index == 7 {
            self.7.measure(available)
        } else if index == 8 {
            self.8.measure(available)
        } else {
            self.9.measure(available)
        }
    }

    open spec fn can_render_child(&self, index: int, size: Size, offset: Point) -> bool {
        if index == 0 {
            self.0.can_render(size, offset)
        } else if index == 1 {
            self.1.can_render(size, offset)
        } else if index == 2 {
            self.2.can_render(size, offset)
        } else if index == 3 {
            self.3.can_render(size, offset)
        } else if index == 4 {
            self.4.can_render(size, offset)
        } else if index == 5 {
            self.5.can_render(size, offset)
        } else if index == 6 {
            self.6.can_render(size, offset)
        } else if index == 7 {
            self.7.can_render(size, offset)
        } else if index == 8 {
            self.8.can_render(size, offset)
        } else {
            self.9.can_render(size, offset)
        }
    }

    open spec fn render_child(&self, index: int, size: Size, offset: Point) -> Seq<DrawOp<Color>> {
        if index == 0 {
            self.0.render(size, offset)
        } else if index == 1 {
            self.1.render(size, offset)
        } else if index == 2 {
            self.2.render(size, offset)
        } else if index == 3 {
            self.3.render(size, offset)
        } else if index == 4 {
            self.4.render(size, offset)
        } else if index == 5 {
            self.5.render(size, offset)
        } else if index == 6 {
            self.6.render(size, offset)
        } else if index == 7 {
            self.7.render(size, offset)
        } else if index == 8 {
            self.8.render(size, offset)
        } else {
            self.9.render(size, offset)
        }
    }

    fn len(&self) -> (n: u32) {
        10
    }

    fn try_child_size(&self, index: u32, available: Size) -> (s: Option<Size>) {
        match index {
            0 => self.0.try_size(available),
            1 => self.1.try_size(available),
            2 => self.2.try_size(available),
            3 => self.3.try_size(available),
            4 => self.4.try_size(available),
            5 => self.5.try_size(available),
            6 => self.6.try_size(available),
            7 => self.7.try_size(available),
            8 => self.8.try_size(available),
            _ => self.9.try_size(available),
        }
    }

    fn child_size(&self, index: u32, available: Size) -> (s: Size) {
        match index {
            0 => self.0.size(available),
            1 => self.1.size(available),
            2 => self.2.size(available),
            3 => self.3.size(available),
            4 => self.4.size(available),
            5 => self.5.size(available),
            6 => self.6.size(available),
            7 => self.7.size(available),
            8 => self.8.size(available),
            _ => self.9.size(available),
        }
    }

    fn can_draw_child(&self, index: u32, size: Size, offset: Point) -> (ok: bool) {
        match index {
            0 => self.0.can_draw(size, offset),
            1 => self.1.can_draw(size, offset),
            2 => self.2.can_draw(size, offset),
            3 => self.3.can_draw(size, offset),
            4 => self.4.can_draw(size, offset),
            5 => self.5.can_draw(size, offset),
            6 => self.6.can_draw(size, offset),
            7 => self.7.can_draw(size, offset),
            8 => self.8.can_draw(size, offset),
            _ => self.9.can_draw(size, offset),
        }
    }

    fn draw_child(&self, index: u32, size: Size, draw_target: &mut LayoutDrawTarget<'_, Color>) {
        match index {
            0 => self.0.draw(size, draw_target),
            1 => self.1.draw(size, draw_target),
            2 => self.2.draw(size, draw_target),
            3 => self.3.draw(size, draw_target),
            4 => self.4.draw(size, draw_target),
            5 => self.5.draw(size, draw_target),
            6 => self.6.draw(size, draw_target),
            7 => self.7.draw(size, draw_target),
            8 => self.8.draw(size, draw_target),
            _ => self.9.draw(size, draw_target),
        }
    }
}
} // verus!
