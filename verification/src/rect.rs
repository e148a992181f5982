//! The rectangle the interface's geometry is expressed in.
//!
//! Device pixels, with the right and bottom edges exclusive. The windowing
//! layer has a rectangle of its own; the two are converted field for field
//! where the geometry meets a drawing call, and nowhere else.

use crate::arith::{fits, toward_zero};
use vstd::prelude::*;

verus! {

/// A rectangle in device pixels, `right` and `bottom` exclusive.
#[derive(Debug, Clone, Copy, PartialEq, Eq, Structural)]
pub struct Rect {
    pub left: i32,
    pub top: i32,
    pub right: i32,
    pub bottom: i32,
}

impl Default for Rect {
    /// The rectangle at the origin that encloses nothing.
    fn default() -> (r: Rect)
        ensures
            r == (Rect { left: 0, top: 0, right: 0, bottom: 0 }),
    {
        Rect { left: 0, top: 0, right: 0, bottom: 0 }
    }
}

impl Rect {
    /// How many columns of pixels the rectangle spans.
    pub open spec fn columns(self) -> int {
        if self.right > self.left {
            self.right - self.left
        } else {
            0
        }
    }

    /// How many rows of pixels the rectangle spans.
    pub open spec fn lines(self) -> int {
        if self.bottom > self.top {
            self.bottom - self.top
        } else {
            0
        }
    }

    /// Whether the pixel `(x, y)` lies inside.
    pub open spec fn has(self, x: int, y: int) -> bool {
        self.left <= x < self.right && self.top <= y < self.bottom
    }

    /// The left edge of a box `w` wide centred in the rectangle.
    pub open spec fn centred_left(self, w: int) -> int {
        self.left + toward_zero(self.columns() - w, 2)
    }

    /// The top edge of a box `h` tall centred in the rectangle.
    pub open spec fn centred_top(self, h: int) -> int {
        self.top + toward_zero(self.lines() - h, 2)
    }

    /// The rectangle spanning `left..right` by `top..bottom`.
    pub fn new(left: i32, top: i32, right: i32, bottom: i32) -> (r: Rect)
        ensures
            r == (Rect { left, top, right, bottom }),
    {
        Rect { left, top, right, bottom }
    }

    /// Width, never negative: a rectangle whose right edge is left of its left
    /// edge has no width rather than a negative one.
    pub fn width(&self) -> (w: i32)
        requires
            fits(self.columns()),
        ensures
            w == self.columns(),
            w >= 0,
    {
        if self.right > self.left {
            self.right - self.left
        } else {
            0
        }
    }

    /// Height, never negative. As [`Rect::width`].
    pub fn height(&self) -> (h: i32)
        requires
            fits(self.lines()),
        ensures
            h == self.lines(),
            h >= 0,
    {
        if self.bottom > self.top {
            self.bottom - self.top
        } else {
            0
        }
    }

    /// Whether the rectangle encloses no pixel at all.
    pub fn is_empty(&self) -> (r: bool)
        ensures
            r == (self.columns() == 0 || self.lines() == 0),
            r == (forall|x: int, y: int| !self.has(x, y)),
    {
        let empty: bool = self.right <= self.left || self.bottom <= self.top;
        proof {
            if !empty {
                assert(self.has(self.left as int, self.top as int));
            }
        }
        empty
    }

    /// Whether `(x, y)` falls inside, with the right and bottom edges excluded,
    /// so that two adjacent controls never both claim one column of pixels.
    pub fn contains(&self, x: i32, y: i32) -> (r: bool)
        ensures
            r == self.has(x as int, y as int),
    {
        x >= self.left && x < self.right && y >= self.top && y < self.bottom
    }

    /// Top-left corner of a `w` by `h` box centred in this rectangle.
    ///
    /// The rectangle is a monitor's work area, so it need not start at the
    /// origin. A box larger than the rectangle gets a negative offset and
    /// overhangs both sides alike.
    pub fn centred_origin(&self, w: i32, h: i32) -> (r: (i32, i32))
        requires
            fits(self.centred_left(w as int)),
            fits(self.centred_top(h as int)),
        ensures
            r.0 == self.centred_left(w as int),
            r.1 == self.centred_top(h as int),
    {
        let columns: i64 = if self.right > self.left {
            self.right as i64 - self.left as i64
        } else {
            0
        };
        let lines: i64 = if self.bottom > self.top {
            self.bottom as i64 - self.top as i64
        } else {
            0
        };
        let x: i64 = self.left as i64 + (columns - w as i64) / 2;
        let y: i64 = self.top as i64 + (lines - h as i64) / 2;
        (x as i32, y as i32)
    }
}

/// A centred box leaves the same margin on both sides, give or take the one
/// pixel that an odd difference cannot split; a box too large for the
/// rectangle overhangs both sides in the same way.
pub proof fn centring_is_even(area: Rect, w: int, h: int)
    ensures
        ({
            let near = area.centred_left(w) - area.left;
            let far = area.left + area.columns() - (area.centred_left(w) + w);
            -1 <= far - near <= 1
        }),
        ({
            let near = area.centred_top(h) - area.top;
            let far = area.top + area.lines() - (area.centred_top(h) + h);
            -1 <= far - near <= 1
        }),
{
}

/// A rectangle that contains a point has a size, and one without a size
/// contains no point.
pub proof fn containing_means_having_a_size(area: Rect, x: int, y: int)
    requires
        area.has(x, y),
    ensures
        area.columns() > 0,
        area.lines() > 0,
{
}

/// Two rectangles that meet along an edge never both contain a point.
pub proof fn touching_rectangles_share_no_point(a: Rect, b: Rect, x: int, y: int)
    requires
        a.right <= b.left || a.bottom <= b.top,
    ensures
        !(a.has(x, y) && b.has(x, y)),
{
}

/// The span of a rectangle counts its pixels: the last column and the last line
/// are inside, the next ones are not.
pub proof fn a_span_counts_the_pixels(area: Rect)
    ensures
        area.right > area.left && area.bottom > area.top ==> {
            &&& area.has(area.left + area.columns() - 1, area.top + area.lines() - 1)
            &&& !area.has(area.left + area.columns(), area.top as int)
            &&& !area.has(area.left as int, area.top + area.lines())
        },
        area.right <= area.left ==> area.columns() == 0,
        area.bottom <= area.top ==> area.lines() == 0,
        area.columns() >= 0,
        area.lines() >= 0,
        area.right > area.left ==> area.left + area.columns() == area.right,
        area.bottom > area.top ==> area.top + area.lines() == area.bottom,
{
}

/// Where the difference is odd, a box that fits leaves the odd pixel beyond it,
/// on the far side, and one that does not fit overhangs by it there.
pub proof fn an_odd_pixel_goes_to_the_far_side(area: Rect, w: int, h: int)
    ensures
        ({
            let near = area.centred_left(w) - area.left;
            let far = area.left + area.columns() - (area.centred_left(w) + w);
            &&& near + far == area.columns() - w
            &&& w <= area.columns() ==> 0 <= near <= far <= near + 1
            &&& w >= area.columns() ==> near - 1 <= far <= near <= 0
        }),
        ({
            let near = area.centred_top(h) - area.top;
            let far = area.top + area.lines() - (area.centred_top(h) + h);
            &&& near + far == area.lines() - h
            &&& h <= area.lines() ==> 0 <= near <= far <= near + 1
            &&& h >= area.lines() ==> near - 1 <= far <= near <= 0
        }),
{
}

} // verus!
