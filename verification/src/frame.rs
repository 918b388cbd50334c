//! A sizing policy per axis, and the alignment of a child within the result.

use vstd::prelude::*;
use crate::alignment::{HorizontalAlignment, VerticalAlignment};
use crate::draw_target::{DrawOp, LayoutDrawTarget};
use crate::geometry::{Point, Size};
use crate::view::View;

verus! {

/// How a frame decides its extent along one axis.
#[derive(Clone, Copy, Debug, PartialEq, Eq, Structural)]
pub enum Dimension {
    /// As much as the child takes.
    Min,
    /// All that is available.
    Max,
    /// A fixed extent.
    Constant(u32),
    /// The share `numerator / denominator` of what is available, rounded
    /// down and never more than the largest extent there is. A zero
    /// denominator is a share without bound.
    Fraction { numerator: u32, denominator: u32 },
}

/// The share `numerator / denominator` of `extent`.
pub open spec fn share(extent: u32, numerator: u32, denominator: u32) -> u32 {
    let product = extent * numerator;
    if denominator == 0 {
        if product == 0 {
            0
        } else {
            u32::MAX
        }
    } else if product / (denominator as int) > u32::MAX {
        u32::MAX
    } else {
        (product / (denominator as int)) as u32
    }
}

/// Computes [`share`].
pub fn share_of(extent: u32, numerator: u32, denominator: u32) -> (s: u32)
    ensures
        s == share(extent, numerator, denominator),
{
    assert(extent * numerator <= 0xffff_ffff * 0xffff_ffff) by (nonlinear_arith)
        requires
            extent <= 0xffff_ffff,
            numerator <= 0xffff_ffff,
    ;
    let product: u64 = (extent as u64) * (numerator as u64);
    if denominator == 0 {
        if product == 0 {
            0
        } else {
            u32::MAX
        }
    } else {
        let quotient: u64 = product / (denominator as u64);
        if quotient > u32::MAX as u64 {
            u32::MAX
        } else {
            quotient as u32
        }
    }
}

/// Sizes itself by a policy per axis, whatever its child's size, and places
/// the child, at the child's own size, by alignment. A child larger than the
/// frame is drawn partly outside it.
pub struct Frame<InnerView, Color> where InnerView: View<Color> {
    width: Dimension,
    height: Dimension,
    horizontal_alignment: HorizontalAlignment,
    vertical_alignment: VerticalAlignment,
    inner_view: InnerView,
    _marker: core::marker::PhantomData<Color>,
}

impl<InnerView, Color> Frame<InnerView, Color> where InnerView: View<Color> {
    pub closed spec fn width(self) -> Dimension {
        self.width
    }

    pub closed spec fn height(self) -> Dimension {
        self.height
    }

    pub closed spec fn horizontal_alignment(self) -> HorizontalAlignment {
        self.horizontal_alignment
    }

    pub closed spec fn vertical_alignment(self) -> VerticalAlignment {
        self.vertical_alignment
    }

    pub closed spec fn inner_view(self) -> InnerView {
        self.inner_view
    }

    /// The width of the frame within `available`.
    pub open spec fn resolved_width(self, available: Size) -> u32 {
        match self.width() {
            Dimension::Max => available.width,
            Dimension::Constant(c) => c,
            Dimension::Min => self.inner_view().measure(available).width,
            Dimension::Fraction { numerator, denominator } => share(
                available.width,
                numerator,
                denominator,
            ),
        }
    }

    /// The space against which the child is measured for a height that
    /// follows the child: the frame's width, and the available height.
    pub open spec fn column(self, available: Size) -> Size {
        Size { width: self.resolved_width(available), height: available.height }
    }

    /// The height of the frame within `available`.
    pub open spec fn resolved_height(self, available: Size) -> u32 {
        match self.height() {
            Dimension::Max => available.height,
            Dimension::Constant(c) => c,
            Dimension::Min => self.inner_view().measure(self.column(available)).height,
            Dimension::Fraction { numerator, denominator } => share(
                available.height,
                numerator,
                denominator,
            ),
        }
    }

    /// Whether the size of the frame within `available` can be resolved: the
    /// child is measured only for an axis that follows it.
    pub open spec fn can_resolve(self, available: Size) -> bool {
        &&& self.width() is Min ==> self.inner_view().can_measure(available)
        &&& self.height() is Min ==> self.inner_view().can_measure(self.column(available))
    }

    /// How far the child's origin lies from the frame's, for a frame of
    /// `size` and a child of `content`.
    pub open spec fn placement(self, size: Size, content: Size) -> (int, int) {
        (
            self.horizontal_alignment().offset_of(size.width, content.width),
            self.vertical_alignment().offset_of(size.height, content.height),
        )
    }

    /// Whether [`Self::placement`] exists for a frame whose origin is `offset`.
    pub open spec fn can_place(self, size: Size, content: Size, offset: Point) -> bool {
        &&& self.horizontal_alignment().has_offset(size.width, content.width)
        &&& self.vertical_alignment().has_offset(size.height, content.height)
        &&& offset.can_shift(self.placement(size, content).0, self.placement(size, content).1)
    }

    /// Where the child's origin lies for a frame of `size` at `offset`.
    pub open spec fn inner_origin(self, size: Size, content: Size, offset: Point) -> Point {
        offset.shift(self.placement(size, content).0, self.placement(size, content).1)
    }

    pub fn new(
        width: Dimension,
        height: Dimension,
        horizontal_alignment: HorizontalAlignment,
        vertical_alignment: VerticalAlignment,
        inner_view: InnerView,
    ) -> (f: Frame<InnerView, Color>)
        ensures
            f.width() == width,
            f.height() == height,
            f.horizontal_alignment() == horizontal_alignment,
            f.vertical_alignment() == vertical_alignment,
            f.inner_view() == inner_view,
    {
        Frame {
            width,
            height,
            horizontal_alignment,
            vertical_alignment,
            inner_view,
            _marker: core::marker::PhantomData,
        }
    }

    /// Resolves the size of the frame within `available_size`, or finds that
    /// the child cannot be measured where the policy asks for it.
    pub fn try_resolve_size(&self, available_size: Size) -> (s: Option<Size>)
        ensures
            s == if self.can_resolve(available_size) {
                Some(
                    Size {
                        width: self.resolved_width(available_size),
                        height: self.resolved_height(available_size),
                    },
                )
            } else {
                None
            },
    {
        let w = match self.width {
            Dimension::Max => available_size.width,
            Dimension::Constant(c) => c,
            Dimension::Min => match self.inner_view.try_size(available_size) {
                Some(content) => content.width,
                None => { return None; },
            },
            Dimension::Fraction { numerator, denominator } => share_of(
                available_size.width,
                numerator,
                denominator,
            ),
        };

        let h = match self.height {
            Dimension::Max => available_size.height,
            Dimension::Constant(c) => c,
            Dimension::Min => match self.inner_view.try_size(
                Size::new(w, available_size.height),
            ) {
                Some(content) => content.height,
                None => { return None; },
            },
            Dimension::Fraction { numerator, denominator } => share_of(
                available_size.height,
                numerator,
                denominator,
            ),
        };

        Some(Size::new(w, h))
    }

    /// Resolves the size of the frame within `available_size`: first the
    /// width, then the height, which may follow the child at that width.
    pub fn resolve_size(&self, available_size: Size) -> (s: Size)
        requires
            self.can_resolve(available_size),
        ensures
            s.width == self.resolved_width(available_size),
            s.height == self.resolved_height(available_size),
    {
        let w = match self.width {
            Dimension::Max => available_size.width,
            Dimension::Constant(c) => c,
            Dimension::Min => self.inner_view.size(available_size).width,
            Dimension::Fraction { numerator, denominator } => share_of(
                available_size.width,
                numerator,
                denominator,
            ),
        };

        let h = match self.height {
            Dimension::Max => available_size.height,
            Dimension::Constant(c) => c,
            Dimension::Min => self.inner_view.size(Size::new(w, available_size.height)).height,
            Dimension::Fraction { numerator, denominator } => share_of(
                available_size.height,
                numerator,
                denominator,
            ),
        };

        Size::new(w, h)
    }
}

impl<Color, InnerView> View<Color> for Frame<InnerView, Color> where InnerView: View<Color> {
    open spec fn can_measure(&self, available: Size) -> bool {
        self.can_resolve(available)
    }

    open spec fn measure(&self, available: Size) -> Size {
        Size { width: self.resolved_width(available), height: self.resolved_height(available) }
    }

    open spec fn can_render(&self, size: Size, offset: Point) -> bool {
        &&& self.inner_view().can_measure(size)
        &&& self.can_place(size, self.inner_view().measure(size), offset)
        &&& self.inner_view().can_render(
            self.inner_view().measure(size),
            self.inner_origin(size, self.inner_view().measure(size), offset),
        )
    }

    open spec fn render(&self, size: Size, offset: Point) -> Seq<DrawOp<Color>> {
        self.inner_view().render(
            self.inner_view().measure(size),
            self.inner_origin(size, self.inner_view().measure(size), offset),
        )
    }

    fn try_size(&self, available: Size) -> (s: Option<Size>) {
        self.try_resolve_size(available)
    }

    fn size(&self, available_size: Size) -> (s: Size) {
        self.resolve_size(available_size)
    }

    fn can_draw(&self, size: Size, offset: Point) -> (ok: bool) {
        let content_size = match self.inner_view.try_size(size) {
            Some(content) => content,
            None => { return false; },
        };
        let x_offset = match self.horizontal_alignment.checked_offset(
            size.width,
            content_size.width,
        ) {
            Some(x) => x,
            None => { return false; },
        };
        let y_offset = match self.vertical_alignment.checked_offset(
            size.height,
            content_size.height,
        ) {
            Some(y) => y,
            None => { return false; },
        };
        if !offset.can_shifted(x_offset, y_offset) {
            return false;
        }
        self.inner_view.can_draw(content_size, offset.shifted(x_offset, y_offset))
    }

    fn draw(&self, size: Size, draw_target: &mut LayoutDrawTarget<'_, Color>) {
        let content_size = self.inner_view.size(size);

        let x_offset = self.horizontal_alignment.offset(size.width, content_size.width);
        let y_offset = self.vertical_alignment.offset(size.height, content_size.height);

        let mut offset_draw_target = LayoutDrawTarget {
            original_draw_target: draw_target.original_draw_target,
            offset: draw_target.offset.shifted(x_offset, y_offset),
        };

        self.inner_view.draw(content_size, &mut offset_draw_target);
    }
}

} // verus!
