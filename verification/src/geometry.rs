//! Plain geometry values: sizes, signed positions and rectangles, with the
//! integer arithmetic that layout performs on them.

use vstd::prelude::*;

verus! {

/// The extent of a view: a width and a height, both non-negative.
#[derive(Clone, Copy, Debug, PartialEq, Eq, Structural)]
pub struct Size {
    pub width: u32,
    pub height: u32,
}

/// A signed displacement from the true origin of the surface.
#[derive(Clone, Copy, Debug, PartialEq, Eq, Structural)]
pub struct Point {
    pub x: i32,
    pub y: i32,
}

/// An axis-aligned rectangle: its top-left corner and its extent.
#[derive(Clone, Copy, Debug, PartialEq, Eq, Structural)]
pub struct Rectangle {
    pub top_left: Point,
    pub size: Size,
}

/// One pixel write: where, and in which color.
#[derive(Debug, PartialEq, Eq)]
pub struct Pixel<Color> {
    pub position: Point,
    pub color: Color,
}

/// The number that the 32 bits of `x` stand for when read as two's complement.
pub open spec fn signed(x: u32) -> int {
    if x <= i32::MAX {
        x as int
    } else {
        x - 0x1_0000_0000
    }
}

/// The number that the 32 bits of `x` stand for when read as unsigned.
pub open spec fn unsigned(x: i32) -> int {
    if x >= 0 {
        x as int
    } else {
        x + 0x1_0000_0000
    }
}

/// Half of `d`, rounded toward zero.
pub open spec fn half(d: int) -> int {
    if d >= 0 {
        d / 2
    } else {
        -((-d) / 2)
    }
}

/// Whether `v` can be held in an `i32`.
pub open spec fn fits_i32(v: int) -> bool {
    i32::MIN <= v <= i32::MAX
}

/// The larger of two extents.
pub open spec fn larger(a: u32, b: u32) -> u32 {
    if a >= b {
        a
    } else {
        b
    }
}

/// The sum of the widths of `sizes`.
pub open spec fn sum_of_widths(sizes: Seq<Size>) -> int
    decreases sizes.len(),
{
    if sizes.len() == 0 {
        0
    } else {
        sum_of_widths(sizes.drop_last()) + sizes.last().width
    }
}

/// The sum of the heights of `sizes`.
pub open spec fn sum_of_heights(sizes: Seq<Size>) -> int
    decreases sizes.len(),
{
    if sizes.len() == 0 {
        0
    } else {
        sum_of_heights(sizes.drop_last()) + sizes.last().height
    }
}

/// The largest width among `sizes`, zero where there is none.
pub open spec fn largest_width(sizes: Seq<Size>) -> u32
    decreases sizes.len(),
{
    if sizes.len() == 0 {
        0
    } else {
        larger(largest_width(sizes.drop_last()), sizes.last().width)
    }
}

/// The largest height among `sizes`, zero where there is none.
pub open spec fn largest_height(sizes: Seq<Size>) -> u32
    decreases sizes.len(),
{
    if sizes.len() == 0 {
        0
    } else {
        larger(largest_height(sizes.drop_last()), sizes.last().height)
    }
}

/// All the spacing that lies between `count` children.
pub open spec fn gaps(spacing: u32, count: nat) -> int {
    if count > 1 {
        spacing * (count - 1)
    } else {
        0
    }
}

/// One more size adds its extents to the sums and competes for the maxima.
pub proof fn lemma_totals_of_push(sizes: Seq<Size>, size: Size)
    ensures
        sum_of_widths(sizes.push(size)) == sum_of_widths(sizes) + size.width,
        sum_of_heights(sizes.push(size)) == sum_of_heights(sizes) + size.height,
        largest_width(sizes.push(size)) == larger(largest_width(sizes), size.width),
        largest_height(sizes.push(size)) == larger(largest_height(sizes), size.height),
{
    assert(sizes.push(size).drop_last() =~= sizes);
}

/// Sums of extents are never negative.
pub proof fn lemma_totals_are_natural(sizes: Seq<Size>)
    ensures
        sum_of_widths(sizes) >= 0,
        sum_of_heights(sizes) >= 0,
    decreases sizes.len(),
{
    if sizes.len() > 0 {
        lemma_totals_are_natural(sizes.drop_last());
    }
}

/// The largest width and the largest height among some sizes are reached by
/// one of them and exceeded by none.
pub proof fn lemma_maxima_are_reached(sizes: Seq<Size>)
    ensures
        forall|i: int| 0 <= i < sizes.len() ==> (#[trigger] sizes[i]).width <= largest_width(sizes),
        forall|i: int| 0 <= i < sizes.len() ==> (#[trigger] sizes[i]).height <= largest_height(sizes),
        sizes.len() > 0 ==> exists|i: int|
            0 <= i < sizes.len() && (#[trigger] sizes[i]).width == largest_width(sizes),
        sizes.len() > 0 ==> exists|i: int|
            0 <= i < sizes.len() && (#[trigger] sizes[i]).height == largest_height(sizes),
    decreases sizes.len(),
{
    if sizes.len() > 0 {
        let front = sizes.drop_last();
        let last = sizes.len() - 1;
        lemma_maxima_are_reached(front);
        assert forall|i: int| 0 <= i < sizes.len() implies (#[trigger] sizes[i]).width
            <= largest_width(sizes) && sizes[i].height <= largest_height(sizes) by {
            if i < last {
                assert(front[i] == sizes[i]);
            }
        }
        if front.len() == 0 {
            assert(sizes[last].width == largest_width(sizes));
            assert(sizes[last].height == largest_height(sizes));
        } else {
            if largest_width(sizes) == sizes[last].width {
                assert(sizes[last].width == largest_width(sizes));
            } else {
                let i = choose|i: int|
                    0 <= i < front.len() && (#[trigger] front[i]).width == largest_width(front);
                assert(sizes[i].width == largest_width(sizes));
            }
            if largest_height(sizes) == sizes[last].height {
                assert(sizes[last].height == largest_height(sizes));
            } else {
                let i = choose|i: int|
                    0 <= i < front.len() && (#[trigger] front[i]).height == largest_height(front);
                assert(sizes[i].height == largest_height(sizes));
            }
        }
    }
}

/// Reads an unsigned extent as a signed coordinate, bit for bit.
pub fn to_signed(x: u32) -> (r: i32)
    ensures
        r == signed(x),
{
    let r: i32 = x as i32;
    assert(r == signed(x)) by (bit_vector)
        requires
            r == x as i32,
    ;
    r
}

/// Reads a signed coordinate as an unsigned extent, bit for bit.
pub fn to_unsigned(x: i32) -> (r: u32)
    ensures
        r == unsigned(x),
{
    let r: u32 = x as u32;
    assert(r == unsigned(x)) by (bit_vector)
        requires
            r == x as u32,
    ;
    r
}

/// Computes [`larger`].
pub fn max_extent(a: u32, b: u32) -> (m: u32)
    ensures
        m == larger(a, b),
{
    if a >= b {
        a
    } else {
        b
    }
}

impl Size {
    pub fn new(width: u32, height: u32) -> (s: Size)
        ensures
            s == (Size { width, height }),
    {
        Size { width, height }
    }
}

impl Point {
    pub fn new(x: i32, y: i32) -> (p: Point)
        ensures
            p == (Point { x, y }),
    {
        Point { x, y }
    }

    /// Whether moving this point by `(dx, dy)` stays within `i32` coordinates.
    pub open spec fn can_shift(self, dx: int, dy: int) -> bool {
        fits_i32(self.x + dx) && fits_i32(self.y + dy)
    }

    /// This point moved by `(dx, dy)`.
    pub open spec fn shift(self, dx: int, dy: int) -> Point {
        Point { x: (self.x + dx) as i32, y: (self.y + dy) as i32 }
    }

    /// Tests [`Point::can_shift`].
    pub fn can_shifted(self, dx: i32, dy: i32) -> (ok: bool)
        ensures
            ok == self.can_shift(dx as int, dy as int),
    {
        self.x.checked_add(dx).is_some() && self.y.checked_add(dy).is_some()
    }

    /// Moves this point by `(dx, dy)`.
    pub fn shifted(self, dx: i32, dy: i32) -> (p: Point)
        requires
            self.can_shift(dx as int, dy as int),
        ensures
            p == self.shift(dx as int, dy as int),
    {
        Point { x: self.x + dx, y: self.y + dy }
    }
}

impl Rectangle {
    pub fn new(top_left: Point, size: Size) -> (r: Rectangle)
        ensures
            r == (Rectangle { top_left, size }),
    {
        Rectangle { top_left, size }
    }

    /// The empty rectangle at the origin.
    pub open spec fn zero() -> Rectangle {
        Rectangle { top_left: Point { x: 0, y: 0 }, size: Size { width: 0, height: 0 } }
    }
}

} // verus!
