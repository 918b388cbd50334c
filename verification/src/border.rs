//! A stroked outline around a child.

use vstd::prelude::*;
use crate::draw_target::{DrawOp, LayoutDrawTarget};
use crate::geometry::{Point, Rectangle, Size};
use crate::view::View;
use vstd::view::View as _;

verus! {

/// Strokes the outline of the space it is given, the stroke lying inside that
/// space, then lets its child draw in the whole of it. It is exactly as large
/// as its child: a border takes no room of its own.
pub struct Border<InnerView, Color> where InnerView: View<Color> {
    color: Color,
    thickness: u32,
    radius: u32,
    inner_view: InnerView,
}

impl<InnerView, Color> Border<InnerView, Color> where InnerView: View<Color> {
    pub closed spec fn color(self) -> Color {
        self.color
    }

    pub closed spec fn thickness(self) -> u32 {
        self.thickness
    }

    pub closed spec fn radius(self) -> u32 {
        self.radius
    }

    pub closed spec fn inner_view(self) -> InnerView {
        self.inner_view
    }

    /// What the border itself asks of the surface for the space `area`: a
    /// rounded outline where the radius is positive, a plain one otherwise.
    pub open spec fn outline(self, area: Rectangle) -> DrawOp<Color> {
        if self.radius() > 0 {
            DrawOp::RoundedStroke {
                area,
                corner_radii: Size { width: self.radius(), height: self.radius() },
                color: self.color(),
                thickness: self.thickness(),
            }
        } else {
            DrawOp::Stroke { area, color: self.color(), thickness: self.thickness() }
        }
    }

    pub fn new(color: Color, thickness: u32, radius: u32, inner_view: InnerView) -> (b: Self)
        ensures
            b.color() == color,
            b.thickness() == thickness,
            b.radius() == radius,
            b.inner_view() == inner_view,
    {
        Self { color, thickness, radius, inner_view }
    }
}

impl<Color: Copy, InnerView> View<Color> for Border<InnerView, Color> where
    InnerView: View<Color>,
 {
    open spec fn can_measure(&self, available: Size) -> bool {
        self.inner_view().can_measure(available)
    }

    open spec fn measure(&self, available: Size) -> Size {
        self.inner_view().measure(available)
    }

    open spec fn can_render(&self, size: Size, offset: Point) -> bool {
        self.inner_view().can_render(size, offset)
    }

    open spec fn render(&self, size: Size, offset: Point) -> Seq<DrawOp<Color>> {
        seq![self.outline(Rectangle { top_left: offset, size })] + self.inner_view().render(
            size,
            offset,
        )
    }

    fn try_size(&self, available: Size) -> (s: Option<Size>) {
        self.inner_view.try_size(available)
    }

    fn size(&self, available_size: Size) -> (s: Size) {
        self.inner_view.size(available_size)
    }

    fn can_draw(&self, size: Size, offset: Point) -> (ok: bool) {
        self.inner_view.can_draw(size, offset)
    }

    fn draw(&self, size: Size, draw_target: &mut LayoutDrawTarget<'_, Color>) {
        let rectangle = Rectangle::new(draw_target.offset, size);
        if self.radius > 0 {
            draw_target.original_draw_target.ops.push(
                DrawOp::RoundedStroke {
                    area: rectangle,
                    corner_radii: Size::new(self.radius, self.radius),
                    color: self.color,
                    thickness: self.thickness,
                },
            );
        } else {
            draw_target.original_draw_target.ops.push(
                DrawOp::Stroke { area: rectangle, color: self.color, thickness: self.thickness },
            );
        }
        self.inner_view.draw(size, draw_target);
    }
}

/// A border is measured exactly as its child is.
pub proof fn lemma_border_passes_size_through<Color: Copy, V: View<Color>>(
    border: Border<V, Color>,
    available: Size,
)
    ensures
        border.can_measure(available) == border.inner_view().can_measure(available),
        border.measure(available) == border.inner_view().measure(available),
{
}

} // verus!
