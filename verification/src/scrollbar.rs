//! The scrollbar of an open dropdown: where its parts are, and what a drag on
//! them means.
//!
//! [`ScrollbarGeometry::layout`] answers "where is each part" and
//! [`ScrollbarGeometry::scroll_at`] the inverse, "which offset puts the thumb
//! here". The two have to undo each other, or a drag runs out of list before
//! the pointer runs out of track.

use crate::arith::{
    fits, larger, larger_i32, larger_i64, smaller, smaller_i64, smaller_usize, toward_zero, within,
};
use crate::rect::Rect;
use vstd::prelude::*;
use vstd::slice::slice_subrange;

verus! {

/// The step-up button of an open list's scrollbar.
pub const HOT_SCROLL_UP: u32 = 9_990;

/// The step-down button.
pub const HOT_SCROLL_DOWN: u32 = 9_991;

/// The track above the thumb: a page back.
pub const HOT_SCROLL_PAGE_UP: u32 = 9_992;

/// The track below the thumb: a page forward.
pub const HOT_SCROLL_PAGE_DOWN: u32 = 9_993;

/// The thumb. Clicking it starts a drag rather than scrolling by itself.
pub const HOT_SCROLL_THUMB: u32 = 9_994;

/// Most options shown at once before the list scrolls.
pub const DROPDOWN_MAX_VISIBLE: usize = 12;

/// How far one page moves: a screenful less a line.
pub const DROPDOWN_PAGE: usize = 11;

/// Width of the scrollbar drawn inside the list, in pixels at the reference
/// row height.
pub const DROPDOWN_SCROLLBAR: i32 = 16;

/// Row height the unscaled scrollbar metrics are quoted against.
pub const SCROLLBAR_REF_ROW: i32 = 22;

/// Shortest the thumb is allowed to get, in pixels at the reference height.
pub const SCROLLBAR_MIN_THUMB: i32 = 18;

/// The largest scroll offset that still fills the window of an open list of
/// `len` options.
pub open spec fn last_offset(len: int) -> int {
    larger(len - DROPDOWN_MAX_VISIBLE, 0)
}

/// The largest scroll offset that still fills the window of an open list.
///
/// A list that fits entirely has nowhere to scroll, which is an offset of zero.
pub fn last_scroll_offset(len: usize) -> (r: usize)
    ensures
        r == last_offset(len as int),
{
    if len > DROPDOWN_MAX_VISIBLE {
        len - DROPDOWN_MAX_VISIBLE
    } else {
        0
    }
}

/// Which options of an open list are on screen, at a given scroll offset.
#[derive(Debug)]
pub struct ListWindow<'a, T> {
    /// Index in the full list of the first option shown: the scroll offset
    /// brought into range, so that scrolling past the end shows the last page.
    pub first: usize,
    /// The options that fit, in order. Empty only when the list is.
    pub shown: &'a [T],
}

impl<'a, T> ListWindow<'a, T> {
    /// The window `scroll` puts over `options`.
    pub fn of(options: &'a [T], scroll: usize) -> (w: ListWindow<'a, T>)
        ensures
            w.first == smaller(scroll as int, last_offset(options@.len() as int)),
            w.shown@ == options@.subrange(
                w.first as int,
                smaller(w.first + DROPDOWN_MAX_VISIBLE, options@.len() as int),
            ),
    {
        let first: usize = smaller_usize(scroll, last_scroll_offset(options.len()));
        let end: usize = if options.len() - first > DROPDOWN_MAX_VISIBLE {
            first + DROPDOWN_MAX_VISIBLE
        } else {
            options.len()
        };
        ListWindow { first, shown: slice_subrange(options, first, end) }
    }
}

/// A list shorter than the cap is shown whole; a longer one always shows a full
/// page, whatever the offset asked for, and the largest offset shows its end.
pub proof fn a_window_is_always_full(len: int, scroll: int)
    requires
        len >= 0,
        scroll >= 0,
    ensures
        ({
            let first = smaller(scroll, last_offset(len));
            let end = smaller(first + DROPDOWN_MAX_VISIBLE, len);
            &&& 0 <= first <= end <= len
            &&& len <= DROPDOWN_MAX_VISIBLE ==> first == 0 && end == len
            &&& len > DROPDOWN_MAX_VISIBLE ==> end - first == DROPDOWN_MAX_VISIBLE
            &&& scroll >= last_offset(len) ==> end == len
        }),
{
}

/// The parts of a dropdown's scrollbar, in window coordinates.
#[derive(Clone, Copy, PartialEq, Eq, Debug, Structural)]
pub struct ScrollbarGeometry {
    /// Full bar, buttons included.
    pub bar: Rect,
    /// The step-up button at the top.
    pub up: Rect,
    /// The step-down button at the bottom.
    pub down: Rect,
    /// The area the thumb travels in, between the two buttons.
    pub track: Rect,
    /// The thumb itself, at the current scroll offset.
    pub thumb: Rect,
}

/// Whether a list of `total` options showing `visible` of them has a bar.
pub open spec fn scrolls(total: int, visible: int) -> bool {
    total > visible && visible != 0
}

/// The side of a stepper button: the bar's width, at most a third of the bar
/// and at least a pixel.
pub open spec fn button_side(frame: Rect, width: int) -> int {
    larger(smaller(width, toward_zero((frame.bottom - 1) - (frame.top + 1), 3)), 1)
}

/// The top edge of the track.
pub open spec fn track_top(frame: Rect, width: int) -> int {
    frame.top + 1 + button_side(frame, width)
}

/// The bottom edge of the track.
pub open spec fn track_bottom(frame: Rect, width: int) -> int {
    frame.bottom - 1 - button_side(frame, width)
}

/// The height of the track, at least a pixel.
pub open spec fn track_height(frame: Rect, width: int) -> int {
    larger(track_bottom(frame, width) - track_top(frame, width), 1)
}

/// The height of the thumb: the visible share of the track, not below the
/// grabbable minimum.
pub open spec fn thumb_height(frame: Rect, width: int, total: int, visible: int) -> int {
    let track = track_height(frame, width);
    let floor = within(
        toward_zero(SCROLLBAR_MIN_THUMB * width, DROPDOWN_SCROLLBAR as int),
        1,
        track,
    );
    within((track * visible) / total, floor, track)
}

/// How far the thumb can move.
pub open spec fn thumb_travel(frame: Rect, width: int, total: int, visible: int) -> int {
    track_height(frame, width) - thumb_height(frame, width, total, visible)
}

/// The top edge of the thumb at offset `scroll`.
pub open spec fn thumb_top(frame: Rect, width: int, total: int, visible: int, scroll: int) -> int {
    track_top(frame, width) + (thumb_travel(frame, width, total, visible) * smaller(
        scroll,
        total - visible,
    )) / (total - visible)
}

/// Whether every edge of a bar laid into `frame` is a coordinate.
pub open spec fn bar_fits(frame: Rect, width: int) -> bool {
    &&& fits(frame.right - 1 - width)
    &&& fits(frame.right - 1)
    &&& fits(frame.top + 1)
    &&& fits(frame.bottom - 1)
    &&& fits(track_top(frame, width))
    &&& fits(track_bottom(frame, width))
    &&& fits(track_top(frame, width) + track_height(frame, width))
}

/// The scrollbar of a list of `total` options showing `visible` of them from
/// offset `scroll`, inside `frame`.
pub open spec fn laid_out(
    frame: Rect,
    width: int,
    total: int,
    visible: int,
    scroll: int,
) -> ScrollbarGeometry {
    let left = (frame.right - 1 - width) as i32;
    let right = (frame.right - 1) as i32;
    let top = (frame.top + 1) as i32;
    let bottom = (frame.bottom - 1) as i32;
    let inner_top = track_top(frame, width) as i32;
    let inner_bottom = track_bottom(frame, width) as i32;
    let thumb = thumb_top(frame, width, total, visible, scroll);
    ScrollbarGeometry {
        bar: Rect { left, top, right, bottom },
        up: Rect { left, top, right, bottom: inner_top },
        down: Rect { left, top: inner_bottom, right, bottom },
        track: Rect { left, top: inner_top, right, bottom: inner_bottom },
        thumb: Rect {
            left,
            top: thumb as i32,
            right,
            bottom: (thumb + thumb_height(frame, width, total, visible)) as i32,
        },
    }
}

/// A share of a whole lies between nothing and the whole.
proof fn a_share_is_bounded(whole: int, part: int, of: int)
    requires
        whole >= 0,
        0 <= part <= of,
        of > 0,
    ensures
        0 <= whole * part <= whole * of,
        0 <= (whole * part) / of <= whole,
{
    assert(0 <= whole * part <= whole * of) by (nonlinear_arith)
        requires
            whole >= 0,
            0 <= part <= of,
    ;
    vstd::arithmetic::div_mod::lemma_div_is_ordered(0, whole * part, of);
    vstd::arithmetic::div_mod::lemma_div_is_ordered(whole * part, whole * of, of);
    assert((whole * of) / of == whole) by {
        vstd::arithmetic::div_mod::lemma_div_by_multiple(whole, of);
    }
    assert(0int / of == 0) by {
        vstd::arithmetic::div_mod::lemma_div_of0(of);
    }
}

/// The thumb is between the grabbable minimum and the track, and its top stays
/// within its travel.
proof fn the_thumb_is_bounded(frame: Rect, width: int, total: int, visible: int, scroll: int)
    requires
        scrolls(total, visible),
        visible >= 0,
        scroll >= 0,
    ensures
        1 <= thumb_height(frame, width, total, visible) <= track_height(frame, width),
        track_top(frame, width) <= thumb_top(frame, width, total, visible, scroll)
            <= track_top(frame, width) + thumb_travel(frame, width, total, visible),
{
    let track = track_height(frame, width);
    a_share_is_bounded(track, visible, total);
    a_share_is_bounded(
        thumb_travel(frame, width, total, visible),
        smaller(scroll, total - visible),
        total - visible,
    );
}

impl ScrollbarGeometry {
    /// Lays out the scrollbar for a list of `total` options showing `visible`
    /// of them at offset `scroll`, inside `frame`.
    ///
    /// `None` when everything fits. An offset past the end counts as the last
    /// one, so the thumb never leaves the bar it belongs to.
    #[verifier::spinoff_prover]
    pub fn layout(frame: Rect, width: i32, total: usize, visible: usize, scroll: usize) -> (r:
        Option<ScrollbarGeometry>)
        requires
            scrolls(total as int, visible as int) ==> total <= i32::MAX && bar_fits(
                frame,
                width as int,
            ),
        ensures
            r == (if scrolls(total as int, visible as int) {
                Some(laid_out(frame, width as int, total as int, visible as int, scroll as int))
            } else {
                None
            }),
    {
        if total <= visible || visible == 0 {
            return None;
        }
        let span: usize = total - visible;
        let offset: usize = smaller_usize(scroll, span);

        // Inside the border on all four sides, like the option rows.
        let left: i32 = (frame.right as i64 - 1 - width as i64) as i32;
        let bar = Rect { left, top: frame.top + 1, right: frame.right - 1, bottom: frame.bottom - 1 };
        let bar_height: i64 = bar.bottom as i64 - bar.top as i64;
        // Square buttons, capped at a third of the bar each, or on a short list
        // the two would meet and leave no track between them.
        let button: i64 = larger_i64(smaller_i64(width as i64, bar_height / 3), 1);
        let inner_top: i32 = (bar.top as i64 + button) as i32;
        let inner_bottom: i32 = (bar.bottom as i64 - button) as i32;
        let up = Rect { left, top: bar.top, right: bar.right, bottom: inner_top };
        let down = Rect { left, top: inner_bottom, right: bar.right, bottom: bar.bottom };
        let track = Rect { left, top: inner_top, right: bar.right, bottom: inner_bottom };

        let track_h: i64 = larger_i64(inner_bottom as i64 - inner_top as i64, 1);
        proof {
            assert(SCROLLBAR_MIN_THUMB * width == 18 * width);
        }
        let floor: i64 = larger_i64(
            smaller_i64(SCROLLBAR_MIN_THUMB as i64 * width as i64 / DROPDOWN_SCROLLBAR as i64, track_h),
            1,
        );
        proof {
            a_share_is_bounded(track_h as int, visible as int, total as int);
            assert(track_h * total <= 0xFFFF_FFFF * 0x7FFF_FFFF) by (nonlinear_arith)
                requires
                    0 <= track_h <= 0xFFFF_FFFF,
                    0 <= total <= 0x7FFF_FFFF,
            ;
        }
        let share: i64 = track_h * visible as i64 / total as i64;
        let thumb_h: i64 = larger_i64(smaller_i64(share, track_h), floor);
        let travel: i64 = track_h - thumb_h;
        proof {
            the_thumb_is_bounded(frame, width as int, total as int, visible as int, scroll as int);
            a_share_is_bounded(travel as int, offset as int, span as int);
            assert(travel * span <= 0xFFFF_FFFF * 0x7FFF_FFFF) by (nonlinear_arith)
                requires
                    0 <= travel <= 0xFFFF_FFFF,
                    0 <= span <= 0x7FFF_FFFF,
            ;
        }
        let top: i64 = inner_top as i64 + travel * offset as i64 / span as i64;
        let thumb = Rect { left, top: top as i32, right: bar.right, bottom: (top + thumb_h) as i32 };
        Some(ScrollbarGeometry { bar, up, down, track, thumb })
    }

    /// How far the thumb of this bar can move, at least a pixel.
    pub open spec fn travel(self) -> int {
        larger(
            larger(self.track.bottom - self.track.top, 1) - (self.thumb.bottom - self.thumb.top),
            1,
        )
    }

    /// The offset a thumb whose top is at `y` stands for, in a list that can
    /// scroll by `span`: the nearest one.
    pub open spec fn offset_at(self, y: int, span: int) -> int {
        let pixels = within(y - self.track.top, 0, self.travel());
        (pixels * span + self.travel() / 2) / self.travel()
    }

    /// The scroll offset that puts the thumb's top at `y`.
    ///
    /// `span` is how far the list can scroll: the count of options that do not
    /// fit. Rounded, not truncated: at the bottom of the travel truncation
    /// would leave the last option one step out of reach.
    pub fn scroll_at(&self, y: i32, span: usize) -> (r: usize)
        requires
            span <= i32::MAX,
        ensures
            r == self.offset_at(y as int, span as int),
            r <= span,
    {
        let track_h: i64 = larger_i64(self.track.bottom as i64 - self.track.top as i64, 1);
        let thumb_h: i64 = self.thumb.bottom as i64 - self.thumb.top as i64;
        let travel: i64 = larger_i64(track_h - thumb_h, 1);
        let offset: i64 = larger_i64(smaller_i64(y as i64 - self.track.top as i64, travel), 0);
        proof {
            an_offset_is_within_the_span(*self, y as int, span as int);
            assert(offset * span <= 0x2_0000_0000 * 0x7FFF_FFFF) by (nonlinear_arith)
                requires
                    0 <= offset <= 0x2_0000_0000,
                    0 <= span <= 0x7FFF_FFFF,
            ;
            assert(offset * span >= 0) by (nonlinear_arith)
                requires
                    0 <= offset,
                    0 <= span,
            ;
        }
        let scaled: i128 = (offset as i128 * span as i128 + (travel / 2) as i128) / travel as i128;
        scaled as usize
    }
}

proof fn an_offset_is_within_the_span(bar: ScrollbarGeometry, y: int, span: int)
    requires
        span >= 0,
    ensures
        0 <= bar.offset_at(y, span) <= span,
{
    let travel = bar.travel();
    let pixels = within(y - bar.track.top, 0, travel);
    assert(0 <= pixels * span <= travel * span) by (nonlinear_arith)
        requires
            0 <= pixels <= travel,
            span >= 0,
    ;
    vstd::arithmetic::div_mod::lemma_div_pos_is_pos(pixels * span + travel / 2, travel);
    vstd::arithmetic::div_mod::lemma_div_is_ordered(
        pixels * span + travel / 2,
        travel * span + travel / 2,
        travel,
    );
    vstd::arithmetic::div_mod::lemma_fundamental_div_mod_converse(
        travel * span + travel / 2,
        travel,
        span,
        travel / 2,
    );
}

/// The buttons and the track tile the bar without a gap or an overlap, the two
/// buttons are the same size, and the thumb stays inside the track, at every
/// offset, in every frame with room for a bar.
pub proof fn the_parts_tile_the_bar(
    frame: Rect,
    width: int,
    total: int,
    visible: int,
    scroll: int,
)
    requires
        scrolls(total, visible),
        visible >= 0,
        scroll >= 0,
        bar_fits(frame, width),
        frame.bottom - frame.top >= 5,
    ensures
        ({
            let g = laid_out(frame, width, total, visible, scroll);
            &&& g.up.top == g.bar.top
            &&& g.up.bottom == g.track.top
            &&& g.track.bottom == g.down.top
            &&& g.down.bottom == g.bar.bottom
            &&& g.up.bottom - g.up.top == g.down.bottom - g.down.top
            &&& g.track.top < g.track.bottom
            &&& g.track.top <= g.thumb.top
            &&& g.thumb.top < g.thumb.bottom
            &&& g.thumb.bottom <= g.track.bottom
            &&& frame.top < g.bar.top
            &&& g.bar.bottom < frame.bottom
            &&& g.bar.right < frame.right
            &&& g.bar.right - g.bar.left == width
        }),
{
    the_thumb_is_bounded(frame, width, total, visible, scroll);
}

/// The thumb is at the top of the track at offset zero and at the bottom at the
/// last one and beyond it.
pub proof fn the_thumb_reaches_both_ends(
    frame: Rect,
    width: int,
    total: int,
    visible: int,
    scroll: int,
)
    requires
        scrolls(total, visible),
        visible >= 0,
        scroll >= total - visible,
        bar_fits(frame, width),
        frame.bottom - frame.top >= 5,
    ensures
        laid_out(frame, width, total, visible, 0).thumb.top == laid_out(
            frame,
            width,
            total,
            visible,
            0,
        ).track.top,
        laid_out(frame, width, total, visible, scroll).thumb.bottom == laid_out(
            frame,
            width,
            total,
            visible,
            scroll,
        ).track.bottom,
{
    let span = total - visible;
    let travel = thumb_travel(frame, width, total, visible);
    the_thumb_is_bounded(frame, width, total, visible, 0);
    the_thumb_is_bounded(frame, width, total, visible, scroll);
    vstd::arithmetic::div_mod::lemma_div_by_multiple(travel, span);
    assert(travel * 0 == 0);
    vstd::arithmetic::div_mod::lemma_div_of0(span);
}

/// The thumb never moves back as the list scrolls forward.
pub proof fn the_thumb_moves_with_the_list(
    frame: Rect,
    width: int,
    total: int,
    visible: int,
    earlier: int,
    later: int,
)
    requires
        scrolls(total, visible),
        visible >= 0,
        0 <= earlier <= later,
        bar_fits(frame, width),
    ensures
        laid_out(frame, width, total, visible, earlier).thumb.top <= laid_out(
            frame,
            width,
            total,
            visible,
            later,
        ).thumb.top,
{
    let span = total - visible;
    let travel = thumb_travel(frame, width, total, visible);
    let a = smaller(earlier, span);
    let b = smaller(later, span);
    the_thumb_is_bounded(frame, width, total, visible, earlier);
    the_thumb_is_bounded(frame, width, total, visible, later);
    assert(travel * a <= travel * b) by (nonlinear_arith)
        requires
            travel >= 0,
            a <= b,
    ;
    vstd::arithmetic::div_mod::lemma_div_is_ordered(travel * a, travel * b, span);
}

/// The thumb never shrinks below the grabbable minimum that fits the track.
pub proof fn the_thumb_stays_grabbable(frame: Rect, width: int, total: int, visible: int)
    requires
        scrolls(total, visible),
        visible >= 0,
        width >= 0,
    ensures
        thumb_height(frame, width, total, visible) >= smaller(
            (SCROLLBAR_MIN_THUMB * width) / DROPDOWN_SCROLLBAR as int,
            track_height(frame, width),
        ),
{
}

/// Dragging the thumb to where it was drawn asks for the offset it was drawn
/// at, exactly when the track's pixels can tell the offsets apart: the pixel
/// the offset was truncated to must lie within half a step of it.
pub proof fn a_drag_undoes_the_drawing(
    frame: Rect,
    width: int,
    total: int,
    visible: int,
    scroll: int,
)
    requires
        scrolls(total, visible),
        visible >= 0,
        0 <= scroll <= total - visible,
        bar_fits(frame, width),
        frame.bottom - frame.top >= 5,
        thumb_travel(frame, width, total, visible) >= 1,
    ensures
        ({
            let g = laid_out(frame, width, total, visible, scroll);
            let span = total - visible;
            let travel = thumb_travel(frame, width, total, visible);
            (g.offset_at(g.thumb.top as int, span) == scroll) == ((travel * scroll) % span
                <= travel / 2)
        }),
{
    let g = laid_out(frame, width, total, visible, scroll);
    let span = total - visible;
    let travel = thumb_travel(frame, width, total, visible);
    the_thumb_is_bounded(frame, width, total, visible, scroll);
    assert(g.travel() == travel);
    let pixels = (travel * scroll) / span;
    let lost = (travel * scroll) % span;
    a_share_is_bounded(travel, scroll, span);
    assert(within(g.thumb.top - g.track.top, 0, travel) == pixels);
    vstd::arithmetic::div_mod::lemma_fundamental_div_mod(travel * scroll, span);
    vstd::arithmetic::mul::lemma_mul_is_commutative(span, pixels);
    assert(pixels * span + travel / 2 == travel * scroll + (travel / 2 - lost));
    vstd::arithmetic::mul::lemma_mul_is_commutative(travel, scroll);
    if lost <= travel / 2 {
        vstd::arithmetic::div_mod::lemma_fundamental_div_mod_converse(
            travel * scroll + (travel / 2 - lost),
            travel,
            scroll,
            travel / 2 - lost,
        );
    } else {
        // What is divided is short of `travel * scroll`, so the quotient is
        // short of `scroll`.
        let numerator = pixels * span + travel / 2;
        if g.offset_at(g.thumb.top as int, span) == scroll {
            vstd::arithmetic::div_mod::lemma_fundamental_div_mod(numerator, travel);
            assert(numerator >= travel * scroll);
            assert(false);
        }
    }
}

/// With at least twice as many pixels of travel as steps between offsets,
/// every offset survives the round trip through the thumb.
pub proof fn a_drag_undoes_the_drawing_with_room(
    frame: Rect,
    width: int,
    total: int,
    visible: int,
    scroll: int,
)
    requires
        scrolls(total, visible),
        visible >= 0,
        0 <= scroll <= total - visible,
        bar_fits(frame, width),
        frame.bottom - frame.top >= 5,
        thumb_travel(frame, width, total, visible) >= 1,
        2 * (total - visible - 1) <= thumb_travel(frame, width, total, visible),
    ensures
        ({
            let g = laid_out(frame, width, total, visible, scroll);
            g.offset_at(g.thumb.top as int, total - visible) == scroll
        }),
{
    let span = total - visible;
    let travel = thumb_travel(frame, width, total, visible);
    a_drag_undoes_the_drawing(frame, width, total, visible, scroll);
    vstd::arithmetic::div_mod::lemma_mod_bound(travel * scroll, span);
}

/// A drag past either end of the track clamps to the first or the last offset.
pub proof fn a_drag_past_the_ends_clamps(bar: ScrollbarGeometry, y: int, span: int)
    requires
        span >= 0,
    ensures
        y <= bar.track.top ==> bar.offset_at(y, span) == 0,
        y >= bar.track.top + bar.travel() ==> bar.offset_at(y, span) == span,
{
    let travel = bar.travel();
    if y <= bar.track.top {
        assert(0 * span == 0);
        vstd::arithmetic::div_mod::lemma_fundamental_div_mod_converse(
            travel / 2,
            travel,
            0,
            travel / 2,
        );
    }
    if y >= bar.track.top + travel {
        vstd::arithmetic::mul::lemma_mul_is_commutative(travel, span);
        vstd::arithmetic::div_mod::lemma_fundamental_div_mod_converse(
            travel * span + travel / 2,
            travel,
            span,
            travel / 2,
        );
    }
}

/// A drag is unaffected by the repaints that happen during it: the offset a
/// pointer position asks for is the same against the bar as grabbed and against
/// the bar as last drawn.
pub proof fn a_drag_ignores_repaints(
    frame: Rect,
    width: int,
    total: int,
    visible: int,
    grabbed: int,
    painted: int,
    y: int,
)
    requires
        scrolls(total, visible),
        visible >= 0,
        grabbed >= 0,
        painted >= 0,
        bar_fits(frame, width),
    ensures
        laid_out(frame, width, total, visible, grabbed).offset_at(y, total - visible) == laid_out(
            frame,
            width,
            total,
            visible,
            painted,
        ).offset_at(y, total - visible),
{
    the_thumb_is_bounded(frame, width, total, visible, grabbed);
    the_thumb_is_bounded(frame, width, total, visible, painted);
}

/// The width of a scrollbar at a row height.
pub open spec fn bar_width(row_height: int) -> int {
    larger(toward_zero(DROPDOWN_SCROLLBAR * row_height, SCROLLBAR_REF_ROW as int), 8)
}

/// The width a list of `total` options gives up to its scrollbar.
pub open spec fn bar_width_for(total: int, row_height: int) -> int {
    if total > DROPDOWN_MAX_VISIBLE {
        bar_width(row_height)
    } else {
        0
    }
}

/// Width of a dropdown's scrollbar at the given row height, or zero when a list
/// of `total` options does not need one.
pub fn scrollbar_width_for(total: usize, row_height: i32) -> (r: i32)
    ensures
        r == bar_width_for(total as int, row_height as int),
{
    if total > DROPDOWN_MAX_VISIBLE {
        scrollbar_width(row_height)
    } else {
        0
    }
}

/// Width of a dropdown's scrollbar at the given row height.
pub fn scrollbar_width(row_height: i32) -> (r: i32)
    ensures
        r == bar_width(row_height as int),
{
    proof {
        assert(DROPDOWN_SCROLLBAR * row_height == 16 * row_height);
    }
    let scaled: i64 = DROPDOWN_SCROLLBAR as i64 * row_height as i64 / SCROLLBAR_REF_ROW as i64;
    larger_i32(scaled as i32, 8)
}

/// The painter and the measurer agree on when a bar exists: a list is charged
/// for one exactly when one is drawn over the options it shows.
pub proof fn a_bar_is_charged_when_it_is_drawn(total: int, row_height: int)
    requires
        total >= 0,
    ensures
        (bar_width_for(total, row_height) > 0) == scrolls(
            total,
            smaller(total, DROPDOWN_MAX_VISIBLE as int),
        ),
{
}

/// Where an open list's parts land.
#[derive(Debug, Clone, Copy, PartialEq, Eq, Structural)]
pub struct ListLayout {
    /// The list's border and everything inside it.
    pub frame: Rect,
    /// Width of the scrollbar drawn inside the frame, zero when the list fits.
    pub bar: i32,
    /// Height of one option row.
    pub item_h: i32,
}

/// The height of a list of `visible` rows: the rows and a pixel of border above
/// and below them.
pub open spec fn list_height(item_h: int, visible: int) -> int {
    item_h * visible + 2
}

/// The top edge of a list: below its control if it fits there, otherwise above
/// it, and never above the top of the window.
pub open spec fn list_top(anchor: Rect, window_height: int, height: int) -> int {
    if anchor.bottom + height <= window_height {
        anchor.bottom as int
    } else {
        larger(anchor.top - height, 0)
    }
}

impl ListLayout {
    /// Places a list of `visible` rows under, or over, the control at `anchor`,
    /// inside a window `window_height` tall.
    ///
    /// `total` is the whole list and `visible` the part that fits.
    pub fn of(
        anchor: Rect,
        window_height: i32,
        item_h: i32,
        row_height: i32,
        total: usize,
        visible: usize,
    ) -> (l: ListLayout)
        requires
            visible <= i32::MAX,
            fits(
                list_top(
                    anchor,
                    window_height as int,
                    list_height(item_h as int, visible as int),
                ),
            ),
            fits(
                list_top(
                    anchor,
                    window_height as int,
                    list_height(item_h as int, visible as int),
                ) + list_height(item_h as int, visible as int),
            ),
        ensures
            l.frame.left == anchor.left,
            l.frame.right == anchor.right,
            l.frame.top == list_top(
                anchor,
                window_height as int,
                list_height(item_h as int, visible as int),
            ),
            l.frame.bottom == l.frame.top + list_height(item_h as int, visible as int),
            l.bar == bar_width_for(total as int, row_height as int),
            l.item_h == item_h,
    {
        proof {
            assert(-0x8000_0000 * 0x7FFF_FFFF <= item_h * visible <= 0x7FFF_FFFF * 0x7FFF_FFFF)
                by (nonlinear_arith)
                requires
                    -0x8000_0000 <= item_h <= 0x7FFF_FFFF,
                    0 <= visible <= 0x7FFF_FFFF,
            ;
        }
        // One pixel of border top and bottom, outside the rows.
        let h: i64 = item_h as i64 * visible as i64 + 2;
        let top: i64 = if anchor.bottom as i64 + h <= window_height as i64 {
            anchor.bottom as i64
        } else {
            larger_i64(anchor.top as i64 - h, 0)
        };
        ListLayout {
            frame: Rect {
                left: anchor.left,
                top: top as i32,
                right: anchor.right,
                bottom: (top + h) as i32,
            },
            bar: scrollbar_width_for(total, row_height),
            item_h,
        }
    }

    /// The top edge of the `slot`-th row on screen.
    pub open spec fn slot_top(self, slot: int) -> int {
        self.frame.top + 1 + self.item_h * slot
    }

    /// The left, top, right and bottom edges of the `slot`-th row on screen.
    pub open spec fn slot_edges(self, slot: int) -> (int, int, int, int) {
        (
            self.frame.left + 1,
            self.slot_top(slot),
            self.frame.right - 1 - self.bar,
            self.slot_top(slot + 1),
        )
    }

    /// The left, top, right and bottom edges of what erasing the list takes.
    pub open spec fn outer_edges(self) -> (int, int, int, int) {
        (self.frame.left - 1, self.frame.top - 1, self.frame.right + 1, self.frame.bottom + 1)
    }

    /// The rectangle of the `slot`-th row on screen, counting from the top of
    /// the list rather than from the top of the options.
    ///
    /// Inside the border on every side, and short of the scrollbar on the
    /// right.
    pub fn option(&self, slot: usize) -> (r: Rect)
        requires
            slot < i32::MAX,
            fits(self.frame.left + 1),
            fits(self.frame.right - 1 - self.bar),
            fits(self.slot_top(slot as int)),
            fits(self.slot_top(slot + 1)),
        ensures
            r.left == self.frame.left + 1,
            r.top == self.slot_top(slot as int),
            r.right == self.frame.right - 1 - self.bar,
            r.bottom == self.slot_top(slot + 1),
            (r.left as int, r.top as int, r.right as int, r.bottom as int) == self.slot_edges(
                slot as int,
            ),
    {
        proof {
            assert(-0x8000_0000 * 0x7FFF_FFFF <= self.item_h * slot <= 0x7FFF_FFFF * 0x7FFF_FFFF)
                by (nonlinear_arith)
                requires
                    -0x8000_0000 <= self.item_h <= 0x7FFF_FFFF,
                    0 <= slot <= 0x7FFF_FFFF,
            ;
            assert(self.item_h * (slot + 1) == self.item_h * slot + self.item_h)
                by (nonlinear_arith);
        }
        let above: i64 = self.frame.top as i64 + 1 + self.item_h as i64 * slot as i64;
        Rect {
            left: self.frame.left + 1,
            top: above as i32,
            right: (self.frame.right as i64 - 1 - self.bar as i64) as i32,
            bottom: (above + self.item_h as i64) as i32,
        }
    }

    /// The area a scroll has to invalidate to erase this list: a pixel past the
    /// frame on each side, which covers the corners of the rounded border.
    pub fn bounds(&self) -> (r: Rect)
        requires
            fits(self.frame.left - 1),
            fits(self.frame.top - 1),
            fits(self.frame.right + 1),
            fits(self.frame.bottom + 1),
        ensures
            r.left == self.frame.left - 1,
            r.top == self.frame.top - 1,
            r.right == self.frame.right + 1,
            r.bottom == self.frame.bottom + 1,
            (r.left as int, r.top as int, r.right as int, r.bottom as int) == self.outer_edges(),
    {
        Rect {
            left: self.frame.left - 1,
            top: self.frame.top - 1,
            right: self.frame.right + 1,
            bottom: self.frame.bottom + 1,
        }
    }
}

/// The rows of a list tile its frame: the first begins inside the top border,
/// each begins where the one above it ended, and the last ends inside the
/// bottom border.
pub proof fn the_rows_tile_the_frame(l: ListLayout, visible: int)
    requires
        visible >= 0,
        l.frame.bottom == l.frame.top + list_height(l.item_h as int, visible),
    ensures
        l.slot_top(0) == l.frame.top + 1,
        l.slot_top(visible) == l.frame.bottom - 1,
{
    assert(l.item_h * 0 == 0);
}

/// A list hangs off its control without covering it, unless the window has no
/// room for it on either side, and then it starts at the top of the window.
pub proof fn a_list_never_covers_its_control(anchor: Rect, window_height: int, height: int)
    ensures
        ({
            let top = list_top(anchor, window_height, height);
            ||| top == anchor.bottom && top + height <= window_height
            ||| top + height == anchor.top
            ||| top == 0 && anchor.top < height
        }),
{
}

/// What one visible option is, to the eye.
#[derive(Debug, Clone, Copy, PartialEq, Eq, Structural)]
pub enum OptionRole {
    /// Where the keyboard is.
    Highlighted,
    /// What the setting currently holds.
    Selected,
    /// Neither.
    Plain,
}

impl OptionRole {
    /// What the option at `index` is, to the eye.
    pub open spec fn at(index: int, selected: int, highlighted: int) -> OptionRole {
        if index == highlighted {
            OptionRole::Highlighted
        } else if index == selected {
            OptionRole::Selected
        } else {
            OptionRole::Plain
        }
    }

    /// Which of the three the option at `index` is.
    ///
    /// The highlight wins when the two coincide, which they do on a freshly
    /// opened list.
    pub fn of(index: usize, selected: usize, highlighted: usize) -> (r: OptionRole)
        ensures
            r == (if index == highlighted {
                OptionRole::Highlighted
            } else if index == selected {
                OptionRole::Selected
            } else {
                OptionRole::Plain
            }),
            r == OptionRole::at(index as int, selected as int, highlighted as int),
    {
        if index == highlighted {
            OptionRole::Highlighted
        } else if index == selected {
            OptionRole::Selected
        } else {
            OptionRole::Plain
        }
    }
}

/// Half the base of the stepper triangle in `area`.
pub open spec fn stepper_half_base(area: Rect) -> int {
    larger(smaller(area.columns(), area.lines()) / 4, 2)
}

/// The height of the stepper triangle in `area`.
pub open spec fn stepper_height(area: Rect) -> int {
    let half = stepper_half_base(area);
    larger(half * 2 - half / 3, 3)
}

/// The middle column of `area`.
pub open spec fn middle_x(area: Rect) -> int {
    toward_zero(area.left + area.right, 2)
}

/// The middle line of `area`.
pub open spec fn middle_y(area: Rect) -> int {
    toward_zero(area.top + area.bottom, 2)
}

/// The line the apex of the stepper is on.
pub open spec fn stepper_apex(area: Rect, up: bool) -> int {
    let half = stepper_height(area) / 2;
    if up {
        middle_y(area) - half
    } else {
        middle_y(area) + half
    }
}

/// The line the base of the stepper is on.
pub open spec fn stepper_base(area: Rect, up: bool) -> int {
    let rest = stepper_height(area) - stepper_height(area) / 2;
    if up {
        middle_y(area) + rest
    } else {
        middle_y(area) - rest
    }
}

/// The three corners of a stepper triangle centred in `area`, apex first.
///
/// Sized off the smaller side, with the apex toward the direction the button
/// steps; the odd pixel of an odd height goes to the base.
pub fn stepper_points(area: &Rect, up: bool) -> (r: [(i32, i32); 3])
    requires
        fits(middle_x(*area) - stepper_half_base(*area)),
        fits(middle_x(*area) + stepper_half_base(*area)),
        fits(stepper_apex(*area, up)),
        fits(stepper_base(*area, up)),
    ensures
        r[0].0 == middle_x(*area),
        r[0].1 == stepper_apex(*area, up),
        r[1].0 == middle_x(*area) - stepper_half_base(*area),
        r[1].1 == stepper_base(*area, up),
        r[2].0 == middle_x(*area) + stepper_half_base(*area),
        r[2].1 == stepper_base(*area, up),
{
    let columns: i64 = if area.right > area.left {
        area.right as i64 - area.left as i64
    } else {
        0
    };
    let lines: i64 = if area.bottom > area.top {
        area.bottom as i64 - area.top as i64
    } else {
        0
    };
    let half_w: i64 = larger_i64(smaller_i64(columns, lines) / 4, 2);
    let height: i64 = larger_i64(half_w * 2 - half_w / 3, 3);
    let cx: i64 = (area.left as i64 + area.right as i64) / 2;
    let cy: i64 = (area.top as i64 + area.bottom as i64) / 2;
    let half_h: i64 = height / 2;
    let apex: i64 = if up {
        cy - half_h
    } else {
        cy + half_h
    };
    let base: i64 = if up {
        cy + (height - half_h)
    } else {
        cy - (height - half_h)
    };
    [
        (cx as i32, apex as i32),
        ((cx - half_w) as i32, base as i32),
        ((cx + half_w) as i32, base as i32),
    ]
}

/// A stepper can be drawn in every button whose edges add up to a coordinate,
/// which is what taking its middle needs.
pub proof fn a_stepper_has_corners(area: Rect, up: bool)
    requires
        fits(area.left + area.right),
        fits(area.top + area.bottom),
    ensures
        fits(middle_x(area) - stepper_half_base(area)),
        fits(middle_x(area) + stepper_half_base(area)),
        fits(stepper_apex(area, up)),
        fits(stepper_base(area, up)),
{
}

/// The stepper is an arrowhead at every size: its base and its height are
/// within half of each other.
pub proof fn a_stepper_is_an_arrowhead(area: Rect)
    ensures
        ({
            let base = 2 * stepper_half_base(area);
            let height = stepper_height(area);
            base * 2 <= height * 3 && height * 2 <= base * 3
        }),
{
}

/// The stepper stays inside its button, whatever shape the button is, as long
/// as the button is large enough to hold the smallest arrow.
pub proof fn a_stepper_fits_its_button(area: Rect, up: bool)
    requires
        area.columns() >= 4,
        area.lines() >= 4,
    ensures
        area.left <= middle_x(area) - stepper_half_base(area),
        middle_x(area) + stepper_half_base(area) <= area.right,
        area.top <= stepper_apex(area, up) <= area.bottom,
        area.top <= stepper_base(area, up) <= area.bottom,
{
}

/// A list opens below its control wherever it fits there, above it where it
/// fits only there, and at the top of the window where it fits on neither side.
pub proof fn a_list_opens_where_it_fits(anchor: Rect, window_height: int, height: int)
    ensures
        anchor.bottom + height <= window_height ==> list_top(anchor, window_height, height)
            == anchor.bottom,
        anchor.bottom + height > window_height && height <= anchor.top ==> list_top(
            anchor,
            window_height,
            height,
        ) + height == anchor.top,
        anchor.bottom + height > window_height && height > anchor.top ==> list_top(
            anchor,
            window_height,
            height,
        ) == 0,
{
}

/// The rows of a list follow each other an option's height apart, and one more
/// row makes the list that much taller; with none there is only the border, a
/// pixel above and one below.
pub proof fn each_row_takes_an_options_height(l: ListLayout, item_h: int, visible: int, slot: int)
    ensures
        l.slot_top(slot + 1) - l.slot_top(slot) == l.item_h,
        list_height(item_h, visible + 1) - list_height(item_h, visible) == item_h,
        list_height(item_h, 0) == 2,
{
    assert(l.item_h * (slot + 1) == l.item_h * slot + l.item_h) by (nonlinear_arith);
    assert(item_h * (visible + 1) == item_h * visible + item_h) by (nonlinear_arith);
    assert(item_h * 0 == 0);
}

/// A page moves by one option less than a list shows, so that the option at its
/// edge is still on screen after it.
pub proof fn a_page_keeps_one_option_on_screen()
    ensures
        DROPDOWN_PAGE + 1 == DROPDOWN_MAX_VISIBLE,
{
}

/// The largest offset leaves exactly a full page to show: the rest of a longer
/// list, and nothing of one that fits.
pub proof fn the_largest_offset_leaves_a_page(len: int)
    requires
        len >= 0,
    ensures
        len >= DROPDOWN_MAX_VISIBLE ==> last_offset(len) + DROPDOWN_MAX_VISIBLE == len,
        len <= DROPDOWN_MAX_VISIBLE ==> last_offset(len) == 0,
{
}

/// A bar is sixteen pixels wide beside a line of twenty-two and in proportion
/// beside another, with the fraction dropped, but never under eight; a list
/// that shows all its options gives up none of its width.
pub proof fn a_bar_is_as_wide_as_its_lines_are_tall(total: int, row_height: int)
    requires
        row_height >= 0,
    ensures
        bar_width(row_height) >= 8,
        bar_width(row_height) == 8 || 0 <= 16 * row_height - 22 * bar_width(row_height) < 22,
        16 * row_height >= 22 * 8 ==> 0 <= 16 * row_height - 22 * bar_width(row_height) < 22,
        total > 12 ==> bar_width_for(total, row_height) == bar_width(row_height),
        total <= 12 ==> bar_width_for(total, row_height) == 0,
{
}

/// The two stepper buttons are squares as wide as the bar, as long as the three
/// of them fit above each other; a bar too short for that gives each of them a
/// third of it, and a pixel at least.
pub proof fn the_steppers_are_square_where_they_fit(
    frame: Rect,
    width: int,
    total: int,
    visible: int,
    scroll: int,
)
    requires
        bar_fits(frame, width),
        width >= 1,
        frame.bottom - frame.top >= 2,
    ensures
        ({
            let g = laid_out(frame, width, total, visible, scroll);
            let inner = g.bar.bottom - g.bar.top;
            let side = g.up.bottom - g.up.top;
            &&& inner == frame.bottom - frame.top - 2
            &&& side == g.down.bottom - g.down.top
            &&& 3 * width <= inner ==> side == width
            &&& 3 * width > inner && inner >= 3 ==> 3 * side <= inner < 3 * (side + 1)
            &&& inner < 3 ==> side == 1
            &&& g.bar.left == g.up.left == g.down.left == g.track.left == g.thumb.left
            &&& g.bar.right == g.up.right == g.down.right == g.track.right == g.thumb.right
        }),
{
}

/// The thumb is to its track what the options shown are to all of them, with
/// the fraction dropped; where that is too small to grab it is the smallest
/// thumb, eighteen pixels on a bar of sixteen and in proportion on another, or
/// the whole track where even that does not fit.
pub proof fn the_thumb_is_the_share_shown(frame: Rect, width: int, total: int, visible: int)
    requires
        scrolls(total, visible),
        visible >= 0,
        width >= 1,
    ensures
        ({
            let track = track_height(frame, width);
            let thumb = thumb_height(frame, width, total, visible);
            let share = (track * visible) / total;
            let least = (18 * width) / 16;
            &&& 1 <= thumb <= track
            &&& least <= share ==> thumb == share
            &&& share < least <= track ==> thumb == least
            &&& track < least ==> thumb == track
        }),
{
    let track = track_height(frame, width);
    a_share_is_bounded(track, visible, total);
}

/// The thumb stands as far down its travel as the list is scrolled, to the
/// pixel above.
pub proof fn the_thumb_stands_where_the_list_is(
    frame: Rect,
    width: int,
    total: int,
    visible: int,
    scroll: int,
)
    requires
        scrolls(total, visible),
        visible >= 0,
        0 <= scroll <= total - visible,
    ensures
        ({
            let down = thumb_top(frame, width, total, visible, scroll) - track_top(frame, width);
            let travel = thumb_travel(frame, width, total, visible);
            let span = total - visible;
            &&& travel == track_height(frame, width) - thumb_height(frame, width, total, visible)
            &&& 0 <= travel * scroll - down * span < span
        }),
{
    let travel = thumb_travel(frame, width, total, visible);
    let span = total - visible;
    let down = (travel * scroll) / span;
    vstd::arithmetic::div_mod::lemma_fundamental_div_mod(travel * scroll, span);
    assert(span * down == down * span) by (nonlinear_arith);
}

/// A drag asks for the offset nearest to where the thumb is held, and for the
/// larger of two that are as near.
pub proof fn a_drag_asks_for_the_nearest_offset(bar: ScrollbarGeometry, y: int, span: int)
    requires
        0 <= y - bar.track.top <= bar.travel(),
    ensures
        ({
            let down = y - bar.track.top;
            let travel = bar.travel();
            let off = bar.offset_at(y, span) * travel - down * span;
            -travel <= 2 * off - 1 && 2 * off <= travel
        }),
{
    let down = y - bar.track.top;
    let travel = bar.travel();
    let offset = bar.offset_at(y, span);
    vstd::arithmetic::div_mod::lemma_fundamental_div_mod(down * span + travel / 2, travel);
    assert(travel * offset == offset * travel) by (nonlinear_arith);
}

/// The stepper triangle spans half of the smaller side of its button, and at
/// least four pixels; it stands centred, its apex on the side it steps to, with
/// the base as far beyond the middle as the apex is before it or a pixel more.
pub proof fn a_stepper_points_where_it_steps(area: Rect)
    ensures
        ({
            let base = 2 * stepper_half_base(area);
            let side = if area.columns() <= area.lines() {
                area.columns()
            } else {
                area.lines()
            };
            &&& base >= 4
            &&& side >= 8 ==> 0 <= side - 2 * base < 4
            &&& side < 8 ==> base == 4
        }),
        ({
            let height = stepper_height(area);
            let half = stepper_half_base(area);
            &&& height >= 3
            &&& 0 <= 3 * height - 5 * half <= 2
        }),
        stepper_apex(area, true) < stepper_base(area, true),
        stepper_apex(area, false) > stepper_base(area, false),
        stepper_base(area, true) - stepper_apex(area, true) == stepper_height(area),
        stepper_apex(area, false) - stepper_base(area, false) == stepper_height(area),
        0 <= (stepper_base(area, true) - middle_y(area)) - (middle_y(area) - stepper_apex(
            area,
            true,
        )) <= 1,
        0 <= (middle_y(area) - stepper_base(area, false)) - (stepper_apex(area, false) - middle_y(
            area,
        )) <= 1,
        -1 <= 2 * middle_x(area) - (area.left + area.right) <= 1,
        -1 <= 2 * middle_y(area) - (area.top + area.bottom) <= 1,
        area.left + area.right >= 0 ==> 2 * middle_x(area) <= area.left + area.right,
        area.top + area.bottom >= 0 ==> 2 * middle_y(area) <= area.top + area.bottom,
{
}

/// A list has a bar exactly when it shows some of its options and not all.
pub proof fn a_bar_is_for_a_list_shown_in_part(total: int, visible: int)
    requires
        visible >= 0,
    ensures
        scrolls(total, visible) <==> 0 < visible < total,
{
}

/// A row of an open list is an option's height tall and lies inside the border,
/// short of the bar; the next one starts where it ends. What erasing the list
/// takes is one pixel more than its frame on every side.
pub proof fn a_row_lies_inside_the_border(l: ListLayout, slot: int)
    ensures
        l.slot_edges(slot).0 - l.frame.left == 1,
        l.frame.right - l.slot_edges(slot).2 == 1 + l.bar,
        l.slot_edges(0).1 - l.frame.top == 1,
        l.slot_edges(slot).3 - l.slot_edges(slot).1 == l.item_h,
        l.slot_edges(slot + 1).1 == l.slot_edges(slot).3,
        l.frame.left - l.outer_edges().0 == 1,
        l.frame.top - l.outer_edges().1 == 1,
        l.outer_edges().2 - l.frame.right == 1,
        l.outer_edges().3 - l.frame.bottom == 1,
{
    assert(l.item_h * (slot + 1) == l.item_h * slot + l.item_h) by (nonlinear_arith);
    assert(l.item_h * 0 == 0);
}

/// The option the keyboard is on shows the highlight, also where it is the
/// selected one; the selected one shows otherwise, and no third option shows
/// anything.
pub proof fn the_highlight_wins(index: int, selected: int, highlighted: int)
    ensures
        OptionRole::at(highlighted, selected, highlighted) == OptionRole::Highlighted,
        selected != highlighted ==> OptionRole::at(selected, selected, highlighted)
            == OptionRole::Selected,
        index != selected && index != highlighted ==> OptionRole::at(index, selected, highlighted)
            == OptionRole::Plain,
{
}

} // verus!
