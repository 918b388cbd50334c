//! The surface that a draw pass writes to, and the offset-translating view of
//! it that is handed down the tree.
//!
//! The surface keeps, in order, what was asked of it. Replaying that list on a
//! display is the caller's part; every position in it is already absolute.

use vstd::prelude::*;
use crate::geometry::{Pixel, Point, Rectangle, Size};
use u8g2_fonts::FontRenderer;

verus! {

/// The one failure of a surface: it rejected a write. Nothing more is known
/// of it, and the layout passes do not react to it.
#[derive(Debug)]
pub enum DrawError {
    Unknown,
}

/// One request to the surface.
#[derive(Debug)]
pub enum DrawOp<Color> {
    /// Fill `area` with `color`.
    Fill { area: Rectangle, color: Color },
    /// Stroke the outline of `area`, `thickness` wide, the stroke lying
    /// wholly inside `area`.
    Stroke { area: Rectangle, color: Color, thickness: u32 },
    /// As `Stroke`, with every corner rounded by `corner_radii`.
    RoundedStroke { area: Rectangle, corner_radii: Size, color: Color, thickness: u32 },
    /// Rasterize `content` with `renderer`, its top edge at `origin`, leaving
    /// the background untouched.
    Text { origin: Point, content: String, color: Color, renderer: FontRenderer },
    /// Write single pixels.
    Pixels { pixels: Vec<Pixel<Color>> },
}

/// A pixel surface: its reported dimensions and what has been asked of it.
pub struct Surface<Color> {
    pub dimensions: Size,
    pub ops: Vec<DrawOp<Color>>,
}

/// A view of a surface whose writes are displaced by `offset`, the distance
/// from the surface's true origin.
pub struct LayoutDrawTarget<'a, Color> {
    pub original_draw_target: &'a mut Surface<Color>,
    pub offset: Point,
}

/// `position` displaced by `offset`, where that stays within `i32`.
pub open spec fn displaced(offset: Point, position: Point) -> Point {
    offset.shift(position.x as int, position.y as int)
}

/// The pixels of `pixels`, each displaced by `offset`.
pub open spec fn displaced_all<Color>(offset: Point, pixels: Seq<Pixel<Color>>) -> Seq<Pixel<Color>> {
    Seq::new(
        pixels.len(),
        |i: int| Pixel { position: displaced(offset, pixels[i].position), color: pixels[i].color },
    )
}

/// Whether every pixel of `pixels` can be displaced by `offset`.
pub open spec fn displaceable<Color>(offset: Point, pixels: Seq<Pixel<Color>>) -> bool {
    forall|i: int|
        0 <= i < pixels.len() ==> offset.can_shift(
            (#[trigger] pixels[i]).position.x as int,
            pixels[i].position.y as int,
        )
}

impl DrawError {
    /// Maps what a surface answered to a write: success stays success, and
    /// every failure becomes `Unknown`.
    pub fn from_outcome<E>(outcome: Result<(), E>) -> (r: Result<(), DrawError>)
        ensures
            r is Ok <==> outcome is Ok,
            r matches Err(e) ==> e is Unknown,
    {
        match outcome {
            Ok(()) => Ok(()),
            Err(_) => Err(DrawError::Unknown),
        }
    }
}

impl<Color> Surface<Color> {
    /// A surface of the given dimensions of which nothing has been asked yet.
    pub fn new(dimensions: Size) -> (s: Self)
        ensures
            s.dimensions == dimensions,
            s.ops@ == Seq::<DrawOp<Color>>::empty(),
    {
        Surface { dimensions, ops: Vec::new() }
    }
}

impl<'a, Color> LayoutDrawTarget<'a, Color> {
    /// Whether `self` is `before` with `emitted` appended to what was asked
    /// of the surface, and nothing else changed.
    pub open spec fn extends(self, before: Self, emitted: Seq<DrawOp<Color>>) -> bool {
        &&& self.offset == before.offset
        &&& self.dimensions() == before.dimensions()
        &&& self.ops() =~= before.ops() + emitted
    }

    /// The dimensions that the surface reports.
    pub open spec fn dimensions(self) -> Size {
        self.original_draw_target.dimensions
    }

    /// What has been asked of the surface so far.
    pub open spec fn ops(self) -> Seq<DrawOp<Color>> {
        self.original_draw_target.ops@
    }

    /// The dimensions of the surface itself; the offset plays no part.
    pub fn size(&self) -> (s: Size)
        ensures
            s == self.dimensions(),
    {
        self.original_draw_target.dimensions
    }

    /// Tests whether `pixel` can be displaced by this target's offset.
    pub fn can_translate(&self, pixel: &Pixel<Color>) -> (ok: bool)
        ensures
            ok == self.offset.can_shift(pixel.position.x as int, pixel.position.y as int),
    {
        self.offset.can_shifted(pixel.position.x, pixel.position.y)
    }

    /// Displaces one pixel by this target's offset.
    pub fn translate(&self, pixel: Pixel<Color>) -> (p: Pixel<Color>)
        requires
            self.offset.can_shift(pixel.position.x as int, pixel.position.y as int),
        ensures
            p.position == displaced(self.offset, pixel.position),
            p.color == pixel.color,
    {
        Pixel {
            position: self.offset.shifted(pixel.position.x, pixel.position.y),
            color: pixel.color,
        }
    }
}

impl<'a, Color: Copy> LayoutDrawTarget<'a, Color> {
    /// Writes `pixels` to the surface in one request, each displaced by this
    /// target's offset. The surface kept here takes every write.
    pub fn draw_iter(&mut self, pixels: &Vec<Pixel<Color>>) -> (r: Result<(), DrawError>)
        requires
            displaceable(old(self).offset, pixels@),
        ensures
            r is Ok,
            final(self).offset == old(self).offset,
            final(self).dimensions() == old(self).dimensions(),
            final(self).ops().len() == old(self).ops().len() + 1,
            final(self).ops().drop_last() == old(self).ops(),
            final(self).ops().last() matches DrawOp::Pixels { pixels: written }
                && written@ == displaced_all(old(self).offset, pixels@),
            *final(final(self).original_draw_target) == *final(old(self).original_draw_target),
    {
        let mut moved: Vec<Pixel<Color>> = Vec::new();
        let mut i: usize = 0;
        while i < pixels.len()
            invariant
                i <= pixels@.len(),
                displaceable(self.offset, pixels@),
                moved@ =~= displaced_all(self.offset, pixels@.subrange(0, i as int)),
            decreases pixels@.len() - i,
        {
            let position = self.offset.shifted(pixels[i].position.x, pixels[i].position.y);
            moved.push(Pixel { position, color: pixels[i].color });
            i = i + 1;
        }
        assert(pixels@.subrange(0, i as int) =~= pixels@);
        self.original_draw_target.ops.push(DrawOp::Pixels { pixels: moved });
        DrawError::from_outcome::<()>(Ok(()))
    }
}

} // verus!
