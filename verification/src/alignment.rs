//! Where a child sits inside the space its parent assigns, along each axis.

use vstd::prelude::*;
use crate::geometry::{fits_i32, half, signed, to_signed};

verus! {

#[derive(Clone, Copy, Debug, PartialEq, Eq, Structural)]
pub enum VerticalAlignment {
    Top,
    Bottom,
    Center,
}

#[derive(Clone, Copy, Debug, PartialEq, Eq, Structural)]
pub enum HorizontalAlignment {
    Left,
    Right,
    Center,
}

/// The signed distance left over when `inner` is taken out of `outer`, both
/// read as signed coordinates. It is negative when the child is the larger.
pub open spec fn gap(outer: u32, inner: u32) -> int {
    signed(outer) - signed(inner)
}

/// Computes [`gap`], or `None` when it does not fit a signed coordinate.
pub fn checked_gap(outer: u32, inner: u32) -> (g: Option<i32>)
    ensures
        g == if fits_i32(gap(outer, inner)) {
            Some(gap(outer, inner) as i32)
        } else {
            None
        },
{
    to_signed(outer).checked_sub(to_signed(inner))
}

/// Computes [`half`].
pub fn halve(d: i32) -> (h: i32)
    ensures
        h == half(d as int),
{
    d / 2
}

impl HorizontalAlignment {
    /// Whether a signed offset exists for a child of width `inner` in a space
    /// of width `outer`. Only `Left` needs no subtraction.
    pub open spec fn has_offset(self, outer: u32, inner: u32) -> bool {
        self is Left || fits_i32(gap(outer, inner))
    }

    /// The signed horizontal offset of a child of width `inner` in a space of
    /// width `outer`: zero, the whole gap, or half of it rounded toward zero.
    pub open spec fn offset_of(self, outer: u32, inner: u32) -> int {
        match self {
            HorizontalAlignment::Left => 0,
            HorizontalAlignment::Right => gap(outer, inner),
            HorizontalAlignment::Center => half(gap(outer, inner)),
        }
    }

    /// Computes [`Self::offset_of`], or `None` where [`Self::has_offset`] fails.
    pub fn checked_offset(self, outer: u32, inner: u32) -> (o: Option<i32>)
        ensures
            o == if self.has_offset(outer, inner) {
                Some(self.offset_of(outer, inner) as i32)
            } else {
                None
            },
    {
        match self {
            HorizontalAlignment::Left => Some(0),
            HorizontalAlignment::Right => checked_gap(outer, inner),
            HorizontalAlignment::Center => match checked_gap(outer, inner) {
                Some(g) => Some(halve(g)),
                None => None,
            },
        }
    }

    /// Computes [`Self::offset_of`].
    pub fn offset(self, outer: u32, inner: u32) -> (o: i32)
        requires
            self.has_offset(outer, inner),
        ensures
            o == self.offset_of(outer, inner),
    {
        match self {
            HorizontalAlignment::Left => 0,
            HorizontalAlignment::Right => to_signed(outer) - to_signed(inner),
            HorizontalAlignment::Center => (to_signed(outer) - to_signed(inner)) / 2,
        }
    }

    /// Whether an unsigned inset exists: a child wider than its space can only
    /// be placed at the left.
    pub open spec fn has_inset(self, outer: u32, inner: u32) -> bool {
        self is Left || inner <= outer
    }

    /// The unsigned horizontal inset of a child of width `inner` in a space of
    /// width `outer`: zero, the whole remainder, or half of it rounded down.
    pub open spec fn inset_of(self, outer: u32, inner: u32) -> int {
        match self {
            HorizontalAlignment::Left => 0,
            HorizontalAlignment::Right => outer - inner,
            HorizontalAlignment::Center => (outer - inner) / 2,
        }
    }

    /// Computes [`Self::inset_of`], or `None` where [`Self::has_inset`] fails.
    pub fn checked_inset(self, outer: u32, inner: u32) -> (o: Option<u32>)
        ensures
            o == if self.has_inset(outer, inner) {
                Some(self.inset_of(outer, inner) as u32)
            } else {
                None
            },
    {
        match self {
            HorizontalAlignment::Left => Some(0),
            HorizontalAlignment::Right => outer.checked_sub(inner),
            HorizontalAlignment::Center => match outer.checked_sub(inner) {
                Some(r) => Some(r / 2),
                None => None,
            },
        }
    }

    /// Computes [`Self::inset_of`].
    pub fn inset(self, outer: u32, inner: u32) -> (o: u32)
        requires
            self.has_inset(outer, inner),
        ensures
            o == self.inset_of(outer, inner),
    {
        match self {
            HorizontalAlignment::Left => 0,
            HorizontalAlignment::Right => outer - inner,
            HorizontalAlignment::Center => (outer - inner) / 2,
        }
    }
}

impl VerticalAlignment {
    /// Whether a signed offset exists for a child of height `inner` in a space
    /// of height `outer`. Only `Top` needs no subtraction.
    pub open spec fn has_offset(self, outer: u32, inner: u32) -> bool {
        self is Top || fits_i32(gap(outer, inner))
    }

    /// The signed vertical offset of a child of height `inner` in a space of
    /// height `outer`: zero, the whole gap, or half of it rounded toward zero.
    pub open spec fn offset_of(self, outer: u32, inner: u32) -> int {
        match self {
            VerticalAlignment::Top => 0,
            VerticalAlignment::Bottom => gap(outer, inner),
            VerticalAlignment::Center => half(gap(outer, inner)),
        }
    }

    /// Computes [`Self::offset_of`], or `None` where [`Self::has_offset`] fails.
    pub fn checked_offset(self, outer: u32, inner: u32) -> (o: Option<i32>)
        ensures
            o == if self.has_offset(outer, inner) {
                Some(self.offset_of(outer, inner) as i32)
            } else {
                None
            },
    {
        match self {
            VerticalAlignment::Top => Some(0),
            VerticalAlignment::Bottom => checked_gap(outer, inner),
            VerticalAlignment::Center => match checked_gap(outer, inner) {
                Some(g) => Some(halve(g)),
                None => None,
            },
        }
    }

    /// Computes [`Self::offset_of`].
    pub fn offset(self, outer: u32, inner: u32) -> (o: i32)
        requires
            self.has_offset(outer, inner),
        ensures
            o == self.offset_of(outer, inner),
    {
        match self {
            VerticalAlignment::Top => 0,
            VerticalAlignment::Bottom => to_signed(outer) - to_signed(inner),
            VerticalAlignment::Center => (to_signed(outer) - to_signed(inner)) / 2,
        }
    }

    /// Whether an unsigned inset exists: a child taller than its space can
    /// only be placed at the top.
    pub open spec fn has_inset(self, outer: u32, inner: u32) -> bool {
        self is Top || inner <= outer
    }

    /// The unsigned vertical inset of a child of height `inner` in a space of
    /// height `outer`: zero, the whole remainder, or half of it rounded down.
    pub open spec fn inset_of(self, outer: u32, inner: u32) -> int {
        match self {
            VerticalAlignment::Top => 0,
            VerticalAlignment::Bottom => outer - inner,
            VerticalAlignment::Center => (outer - inner) / 2,
        }
    }

    /// Computes [`Self::inset_of`], or `None` where [`Self::has_inset`] fails.
    pub fn checked_inset(self, outer: u32, inner: u32) -> (o: Option<u32>)
        ensures
            o == if self.has_inset(outer, inner) {
                Some(self.inset_of(outer, inner) as u32)
            } else {
                None
            },
    {
        match self {
            VerticalAlignment::Top => Some(0),
            VerticalAlignment::Bottom => outer.checked_sub(inner),
            VerticalAlignment::Center => match outer.checked_sub(inner) {
                Some(r) => Some(r / 2),
                None => None,
            },
        }
    }

    /// Computes [`Self::inset_of`].
    pub fn inset(self, outer: u32, inner: u32) -> (o: u32)
        requires
            self.has_inset(outer, inner),
        ensures
            o == self.inset_of(outer, inner),
    {
        match self {
            VerticalAlignment::Top => 0,
            VerticalAlignment::Bottom => outer - inner,
            VerticalAlignment::Center => (outer - inner) / 2,
        }
    }
}

} // verus!
