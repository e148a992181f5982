//! What a window is made of, said in data.
//!
//! A [`Row`] and its variants, the gaps between them, the item inside a
//! dropdown, the edits a control reports back, and the hotspot id scheme that
//! lets a click name what it hit. Nothing here draws or measures:
//! [`Row::height`] takes the measurements it needs as an argument.

use crate::arith::{fits, smaller, toward_zero};
use crate::color::Color;
use crate::scrollbar::DROPDOWN_PAGE;
use crate::text::TextMetrics;
use crate::text::TextModel;
use crate::theme::{Metrics, ScaledTheme};
use vstd::prelude::*;

verus! {

/// Turns the buzzer on or off from the panel.
pub const HOT_BEEPER: u32 = 1;

/// Opens the settings dialog from the panel itself.
pub const HOT_SETTINGS: u32 = 2;

/// Starts a self-test from the panel, after a confirmation dialog.
pub const HOT_SELFTEST: u32 = 3;

/// The Yes button on the self-test confirmation modal.
pub const HOT_CONFIRM_YES: u32 = 4;

/// The No button on the self-test confirmation modal.
pub const HOT_CONFIRM_NO: u32 = 5;

/// Reported when a click lands on no control at all.
///
/// Above every control id and below the option band, so it can never be
/// mistaken for either.
pub const HOT_NOTHING: u32 = 9_999;

/// Width of the id band each dropdown owns.
pub const OPTION_BAND: u32 = 100;

/// Where the option ids begin, above every fixed control id.
pub const OPTION_BASE: u32 = 10_000;

/// How far outside a control the keyboard focus ring is drawn.
pub const FOCUS_RING_OUTSET: i32 = 2;

/// What a click can name.
///
/// Three bands: controls from 1 upwards (the panel's low, the settings
/// dialog's from 100, the scrollbar's parts from 9990), the one id for a click
/// that hit nothing, and from [`OPTION_BASE`] the options of open lists, one
/// [`OPTION_BAND`]-wide band per control.
#[derive(Debug, Clone, Copy, PartialEq, Eq, Structural, Hash)]
pub struct HotspotId(pub u32);

impl HotspotId {
    /// An id from the number it is authored as.
    pub fn new(raw: u32) -> (id: HotspotId)
        ensures
            id == HotspotId(raw),
    {
        HotspotId(raw)
    }

    /// The id of a click that landed on no control.
    pub fn nothing() -> (id: HotspotId)
        ensures
            id == HotspotId(HOT_NOTHING),
    {
        HotspotId(HOT_NOTHING)
    }

    /// The number of the `index`-th option in this control's list.
    pub open spec fn option_number(self, index: int) -> int {
        self.0 * OPTION_BAND + OPTION_BASE + index
    }

    /// The control and the index an option id stands for, if it is one.
    pub open spec fn as_option(self) -> Option<(HotspotId, int)> {
        if self.0 < OPTION_BASE {
            None
        } else {
            Some(
                (
                    HotspotId(((self.0 - OPTION_BASE) / OPTION_BAND as int) as u32),
                    (self.0 - OPTION_BASE) % OPTION_BAND as int,
                ),
            )
        }
    }

    /// The id of the nth option in the dropdown this id belongs to.
    ///
    /// Option `n` of the control with id 107 is `107 * 100 + 10_000 + n`, that
    /// is `20_700 + n`.
    pub fn option(self, index: usize) -> (id: HotspotId)
        requires
            self.option_number(index as int) <= u32::MAX,
        ensures
            id.0 == self.option_number(index as int),
    {
        HotspotId(self.0 * OPTION_BAND + OPTION_BASE + index as u32)
    }

    /// The (control, option) this id refers to, if it is an option id.
    pub fn split_option(self) -> (r: Option<(HotspotId, usize)>)
        ensures
            r is Some == self.as_option() is Some,
            r matches Some(pair) ==> self.as_option() == Some((pair.0, pair.1 as int)),
    {
        if self.0 < OPTION_BASE {
            return None;
        }
        let rel: u32 = self.0 - OPTION_BASE;
        Some((HotspotId(rel / OPTION_BAND), (rel % OPTION_BAND) as usize))
    }
}

/// An option id names the control and the option it was made from, exactly
/// when the index is inside the band the control owns.
pub proof fn option_ids_split_back(id: HotspotId, index: int)
    requires
        index >= 0,
        id.option_number(index) <= u32::MAX,
    ensures
        (HotspotId(id.option_number(index) as u32).as_option() == Some((id, index))) == (index
            < OPTION_BAND),
{
}

/// Two different options of lists no longer than a band never share an id.
pub proof fn option_ids_are_distinct(a: HotspotId, i: int, b: HotspotId, j: int)
    requires
        0 <= i < OPTION_BAND,
        0 <= j < OPTION_BAND,
        a.option_number(i) == b.option_number(j),
    ensures
        a == b,
        i == j,
{
}

/// A vertical gap, named by role instead of by pixels, so that it is resolved
/// against the theme it is measured with and scales with everything else.
#[derive(Debug, Clone, Copy, PartialEq, Eq, Structural, Hash)]
pub enum Gap {
    /// Between controls that belong together.
    Half,
    /// Between blocks that do not.
    Single,
}

impl Gap {
    /// The gap in pixels under these metrics.
    pub open spec fn pixels(self, metrics: Metrics) -> int {
        match self {
            Gap::Half => toward_zero(metrics.spacing as int, 2),
            Gap::Single => metrics.spacing as int,
        }
    }

    /// The gap in pixels, against the theme it is being measured with.
    pub fn px(self, theme: &ScaledTheme) -> (r: i32)
        ensures
            r == self.pixels(theme.geometry()),
    {
        let spacing: i32 = theme.metrics().spacing;
        match self {
            Gap::Half => spacing / 2,
            Gap::Single => spacing,
        }
    }
}

/// One option in a [`Row::Dropdown`].
#[derive(Debug, Clone, PartialEq)]
pub struct DropdownItem {
    /// Latin-script part, always drawable in the default interface font.
    pub label: String,
    /// Native-script part shown in parentheses after `label`, empty when the
    /// two would be the same word.
    pub native: String,
    /// Font family for `native`, `None` for the default interface font.
    pub font: Option<&'static str>,
}

/// What a dropdown option says.
#[verifier::ext_equal]
pub struct ItemView {
    pub label: Seq<char>,
    pub native: Seq<char>,
    pub font: Option<Seq<char>>,
}

/// What an optional font family says.
pub open spec fn family_view(font: Option<&'static str>) -> Option<Seq<char>> {
    match font {
        Some(name) => Some(name@),
        None => None,
    }
}

impl View for DropdownItem {
    type V = ItemView;

    open spec fn view(&self) -> ItemView {
        ItemView { label: self.label@, native: self.native@, font: family_view(self.font) }
    }
}

/// The options of a list, as what they say.
pub open spec fn items_view(items: Seq<DropdownItem>) -> Seq<ItemView> {
    Seq::new(items.len(), |i: int| items[i]@)
}

/// A single line of a window: a label on the left and a value on the right, or
/// one of the controls and messages that stand among such lines.
#[derive(Debug, PartialEq)]
pub enum Row {
    Header(String),
    Pair { label: String, value: String, color: Color },
    /// Free-flowing text that wraps across as many lines as it needs. Its
    /// height is measured, not derived.
    Wrapped { text: String, color: Color },
    /// A single line of full-width coloured text, never wrapped.
    Notice { text: String, color: Color },
    /// A label, its value, and a button immediately after the value.
    LabeledButton {
        label: String,
        value: String,
        color: Color,
        button: String,
        id: HotspotId,
        /// False when the button cannot be clicked right now: it is drawn
        /// greyed and registers no hotspot.
        enabled: bool,
    },
    /// A title with a button right-aligned on the same line.
    TitleButton { title: String, button: String, id: HotspotId },
    /// A labelled on/off box. Clicking anywhere on the row toggles it.
    Checkbox {
        label: String,
        checked: bool,
        /// Nesting depth: a subordinate switch sits one level in from the
        /// master switch it belongs to, box and label together.
        depth: u8,
        id: HotspotId,
    },
    /// A labelled value chosen from a list that opens over the rows below it.
    Dropdown {
        label: String,
        /// Every option, in display order.
        options: Vec<DropdownItem>,
        /// Index of the current selection into `options`.
        selected: usize,
        /// Which option the keyboard has moved to; the selection until the
        /// user presses a key, so arrowing does not commit until Enter.
        highlighted: usize,
        open: bool,
        /// First visible option.
        scroll: usize,
        id: HotspotId,
    },
    /// A labelled editable text field. `caret` and the selection are character
    /// offsets into `value`.
    Field {
        label: String,
        value: String,
        caret: usize,
        /// Selected range `sel_start..sel_end`, empty when the two are equal.
        sel_start: usize,
        sel_end: usize,
        id: HotspotId,
    },
    /// Two buttons on one line, so OK and Cancel sit side by side.
    Buttons { left: String, left_id: HotspotId, right: String, right_id: HotspotId },
    Space(Gap),
}

/// What a row says.
#[verifier::ext_equal]
pub enum RowView {
    Header(Seq<char>),
    Pair { label: Seq<char>, value: Seq<char>, color: Color },
    Wrapped { text: Seq<char>, color: Color },
    Notice { text: Seq<char>, color: Color },
    LabeledButton {
        label: Seq<char>,
        value: Seq<char>,
        color: Color,
        button: Seq<char>,
        id: HotspotId,
        enabled: bool,
    },
    TitleButton { title: Seq<char>, button: Seq<char>, id: HotspotId },
    Checkbox { label: Seq<char>, checked: bool, depth: u8, id: HotspotId },
    Dropdown {
        label: Seq<char>,
        options: Seq<ItemView>,
        selected: int,
        highlighted: int,
        open: bool,
        scroll: int,
        id: HotspotId,
    },
    Field {
        label: Seq<char>,
        value: Seq<char>,
        caret: int,
        sel_start: int,
        sel_end: int,
        id: HotspotId,
    },
    Buttons { left: Seq<char>, left_id: HotspotId, right: Seq<char>, right_id: HotspotId },
    Space(Gap),
}

impl View for Row {
    type V = RowView;

    open spec fn view(&self) -> RowView {
        match self {
            Row::Header(text) => RowView::Header(text@),
            Row::Pair { label, value, color } => RowView::Pair {
                label: label@,
                value: value@,
                color: *color,
            },
            Row::Wrapped { text, color } => RowView::Wrapped { text: text@, color: *color },
            Row::Notice { text, color } => RowView::Notice { text: text@, color: *color },
            Row::LabeledButton { label, value, color, button, id, enabled } => {
                RowView::LabeledButton {
                    label: label@,
                    value: value@,
                    color: *color,
                    button: button@,
                    id: *id,
                    enabled: *enabled,
                }
            },
            Row::TitleButton { title, button, id } => RowView::TitleButton {
                title: title@,
                button: button@,
                id: *id,
            },
            Row::Checkbox { label, checked, depth, id } => RowView::Checkbox {
                label: label@,
                checked: *checked,
                depth: *depth,
                id: *id,
            },
            Row::Dropdown { label, options, selected, highlighted, open, scroll, id } => {
                RowView::Dropdown {
                    label: label@,
                    options: items_view(options@),
                    selected: *selected as int,
                    highlighted: *highlighted as int,
                    open: *open,
                    scroll: *scroll as int,
                    id: *id,
                }
            },
            Row::Field { label, value, caret, sel_start, sel_end, id } => RowView::Field {
                label: label@,
                value: value@,
                caret: *caret as int,
                sel_start: *sel_start as int,
                sel_end: *sel_end as int,
                id: *id,
            },
            Row::Buttons { left, left_id, right, right_id } => RowView::Buttons {
                left: left@,
                left_id: *left_id,
                right: right@,
                right_id: *right_id,
            },
            Row::Space(gap) => RowView::Space(*gap),
        }
    }
}

/// The rows of a window, as what they say.
pub open spec fn rows_view(rows: Seq<Row>) -> Seq<RowView> {
    Seq::new(rows.len(), |i: int| rows[i]@)
}

/// Appending a row appends what it says.
pub broadcast proof fn rows_view_push(rows: Seq<Row>, row: Row)
    ensures
        #[trigger] rows_view(rows.push(row)) == rows_view(rows).push(row@),
{
    assert(rows_view(rows.push(row)) =~= rows_view(rows).push(row@));
}

impl RowView {
    /// Whether the row is one of the raised, clickable controls.
    pub open spec fn is_button(self) -> bool {
        self is LabeledButton || self is TitleButton || self is Buttons
    }

    /// The blank above the row's content.
    pub open spec fn lead_in(self, metrics: Metrics, header_seen: bool) -> int {
        match self {
            RowView::Header(_) => if header_seen {
                toward_zero(metrics.spacing as int, 2)
            } else {
                0
            },
            RowView::Buttons { .. } => metrics.row_lead(),
            _ => 0,
        }
    }

    /// The height of the row's content, below its lead-in.
    pub open spec fn body_height(self, metrics: Metrics, wrap_width: int, model: TextModel) -> int {
        let line = metrics.row_height as int;
        let spacing = metrics.spacing as int;
        match self {
            RowView::Space(gap) => gap.pixels(metrics),
            RowView::Header(_) => line + toward_zero(spacing, 2),
            RowView::Pair { .. } => line,
            RowView::Wrapped { text, .. } => (model.wrapped)(text, wrap_width),
            RowView::Notice { .. } => line,
            RowView::LabeledButton { .. } => line,
            RowView::TitleButton { .. } => line + spacing,
            RowView::Checkbox { .. } => line + toward_zero(spacing, 2),
            RowView::Dropdown { .. } => line + toward_zero(spacing, 2) + FOCUS_RING_OUTSET,
            RowView::Field { .. } => line + toward_zero(spacing, 2) + FOCUS_RING_OUTSET,
            RowView::Buttons { .. } => line + spacing,
        }
    }

    /// The vertical space the row occupies.
    pub open spec fn height(
        self,
        metrics: Metrics,
        wrap_width: int,
        header_seen: bool,
        model: TextModel,
    ) -> int {
        self.lead_in(metrics, header_seen) + self.body_height(metrics, wrap_width, model)
    }
}

impl Row {
    /// Whether this row is a button: one of the raised, clickable controls that
    /// take pointer-hover feedback.
    pub fn is_button(&self) -> (r: bool)
        ensures
            r == self@.is_button(),
    {
        match self {
            Row::LabeledButton { .. } | Row::TitleButton { .. } | Row::Buttons { .. } => true,
            Row::Header(_)
            | Row::Pair { .. }
            | Row::Wrapped { .. }
            | Row::Notice { .. }
            | Row::Checkbox { .. }
            | Row::Dropdown { .. }
            | Row::Field { .. }
            | Row::Space(_) => false,
        }
    }

    /// The blank charged above this row's content, in pixels.
    ///
    /// A header's lead-in separates it from the section above and exists only
    /// when there is one. The button row's lead-in balances the space above the
    /// buttons against the window's bottom margin below them.
    pub fn lead_in(&self, theme: &ScaledTheme, header_seen: bool) -> (r: i32)
        ensures
            r == self@.lead_in(theme.geometry(), header_seen),
    {
        match self {
            Row::Header(_) => if header_seen {
                theme.metrics().spacing / 2
            } else {
                0
            },
            Row::Buttons { .. } => theme.metrics().button_row_lead(),
            _ => 0,
        }
    }

    /// The height of this row's content, below its lead-in, whether or not it
    /// is a pixel count.
    ///
    /// A wrapped row's height depends on the font and on the width it flows
    /// into, so it is measured; every other height comes from the theme.
    fn body<M: TextMetrics>(&self, theme: &ScaledTheme, wrap_width: i32, metrics: &mut M) -> (r:
        i64)
        ensures
            r == self@.body_height(theme.geometry(), wrap_width as int, old(metrics).model()),
            -0x2_0000_0000 <= r <= 0x2_0000_0000,
            final(metrics).model() == old(metrics).model(),
    {
        let line: i64 = theme.metrics().row_height as i64;
        let spacing: i64 = theme.metrics().spacing as i64;
        match self {
            Row::Space(gap) => gap.px(theme) as i64,
            // The trailing half-spacing under a heading separates it from its
            // own first row.
            Row::Header(_) => line + spacing / 2,
            Row::Pair { .. } => line,
            Row::Wrapped { text, .. } => metrics.wrapped_height(text.as_str(), wrap_width) as i64,
            Row::Notice { .. } => line,
            // The button overhangs the line symmetrically rather than growing
            // the row.
            Row::LabeledButton { .. } => line,
            Row::TitleButton { .. } => line + spacing,
            Row::Checkbox { .. } => line + spacing / 2,
            // These two fill their line edge to edge, so they buy their own
            // focus ring. An open list is an overlay and adds nothing.
            Row::Dropdown { .. } | Row::Field { .. } => line + spacing / 2
                + FOCUS_RING_OUTSET as i64,
            Row::Buttons { .. } => line + spacing,
        }
    }

    /// The height of this row's content, below its lead-in.
    pub fn body_height<M: TextMetrics>(
        &self,
        theme: &ScaledTheme,
        wrap_width: i32,
        metrics: &mut M,
    ) -> (r: i32)
        requires
            fits(self@.body_height(theme.geometry(), wrap_width as int, old(metrics).model())),
        ensures
            r == self@.body_height(theme.geometry(), wrap_width as int, old(metrics).model()),
            final(metrics).model() == old(metrics).model(),
    {
        self.body(theme, wrap_width, metrics) as i32
    }

    /// The vertical space this row occupies, whether or not it is a pixel
    /// count: its lead-in plus its body.
    pub fn extent<M: TextMetrics>(
        &self,
        theme: &ScaledTheme,
        wrap_width: i32,
        header_seen: bool,
        metrics: &mut M,
    ) -> (r: i64)
        ensures
            r == self@.height(
                theme.geometry(),
                wrap_width as int,
                header_seen,
                old(metrics).model(),
            ),
            -0x4_0000_0000 <= r <= 0x4_0000_0000,
            final(metrics).model() == old(metrics).model(),
    {
        self.lead_in(theme, header_seen) as i64 + self.body(theme, wrap_width, metrics)
    }

    /// The vertical space this row occupies, in pixels: its lead-in plus its
    /// body. The one height table for the painter and the measurer.
    pub fn height<M: TextMetrics>(
        &self,
        theme: &ScaledTheme,
        wrap_width: i32,
        header_seen: bool,
        metrics: &mut M,
    ) -> (r: i32)
        requires
            fits(
                self@.height(
                    theme.geometry(),
                    wrap_width as int,
                    header_seen,
                    old(metrics).model(),
                ),
            ),
        ensures
            r == self@.height(
                theme.geometry(),
                wrap_width as int,
                header_seen,
                old(metrics).model(),
            ),
            final(metrics).model() == old(metrics).model(),
    {
        self.extent(theme, wrap_width, header_seen, metrics) as i32
    }
}

/// A single keyboard edit against the focused field or open list.
#[derive(Clone, Copy, PartialEq, Eq, Debug, Structural)]
pub enum Edit {
    Insert(char),
    Backspace,
    /// Delete the character to the right of the caret, or the selection.
    Delete,
    Commit,
    Cancel,
    /// Caret movement within the focused field. `extend` is set when Shift is
    /// held, so the same four keys serve both movement and selection.
    CaretLeft { extend: bool },
    CaretRight { extend: bool },
    CaretHome { extend: bool },
    CaretEnd { extend: bool },
    /// Select the entire field.
    SelectAll,
    /// Place the caret at a character index, from a mouse click or drag;
    /// `extend` grows the selection instead of collapsing it.
    CaretTo { index: usize, extend: bool },
    /// Move the highlight in an open list.
    Highlight(Move),
    /// Move the view of an open list, positive upward: wheel notches, stepper
    /// presses and page jumps alike.
    Scroll(i32),
    /// Put the first visible option at this index, from a thumb drag.
    ScrollTo(usize),
    /// The pointer moved onto this option of the open list.
    Hover(usize),
}

/// How far a key moves the highlight in an open list.
#[derive(Clone, Copy, PartialEq, Eq, Debug, Structural)]
pub enum Move {
    /// Up arrow.
    Previous,
    /// Down arrow.
    Next,
    /// Page Up.
    PageBack,
    /// Page Down.
    PageForward,
    /// Home.
    First,
    /// End.
    Last,
}

impl Move {
    /// The last index of a list of `count` options; zero for an empty one.
    pub open spec fn last_of(count: int) -> int {
        if count > 0 {
            count - 1
        } else {
            0
        }
    }

    /// Where the move lands from `at`, in a list of `count` options.
    pub open spec fn lands(self, at: int, count: int) -> int {
        let last = Move::last_of(count);
        match self {
            Move::Previous => if at > 0 {
                at - 1
            } else {
                0
            },
            Move::Next => smaller(at + 1, last),
            Move::PageBack => if at > DROPDOWN_PAGE {
                at - DROPDOWN_PAGE
            } else {
                0
            },
            Move::PageForward => smaller(at + DROPDOWN_PAGE, last),
            Move::First => 0,
            Move::Last => last,
        }
    }

    /// The index this move lands on, from `at`, in a list of `count` options.
    ///
    /// Saturating at both ends rather than wrapping: running off the end lands
    /// on the end.
    pub fn apply(self, at: usize, count: usize) -> (r: usize)
        ensures
            r == self.lands(at as int, count as int),
    {
        let last: usize = if count > 0 {
            count - 1
        } else {
            0
        };
        match self {
            Move::Previous => if at > 0 {
                at - 1
            } else {
                0
            },
            Move::Next => if at >= last {
                last
            } else {
                at + 1
            },
            Move::PageBack => if at > DROPDOWN_PAGE {
                at - DROPDOWN_PAGE
            } else {
                0
            },
            Move::PageForward => if at >= last || last - at <= DROPDOWN_PAGE {
                last
            } else {
                at + DROPDOWN_PAGE
            },
            Move::First => 0,
            Move::Last => last,
        }
    }
}

/// A move from inside a list stays inside it, never wraps past an end, and in
/// an empty list has nowhere to go but zero.
pub proof fn a_move_stays_in_the_list(mv: Move, at: int, count: int)
    requires
        0 <= at,
        at < count || (at == 0 && count == 0),
    ensures
        0 <= mv.lands(at, count),
        count > 0 ==> mv.lands(at, count) < count,
        count == 0 ==> mv.lands(at, count) == 0,
        (mv is Next || mv is PageForward || mv is Last) ==> mv.lands(at, count) >= at,
        (mv is Previous || mv is PageBack || mv is First) ==> mv.lands(at, count) <= at,
{
}

/// Paging forward twice crosses any list no longer than two pages and one
/// option.
pub proof fn paging_twice_crosses_a_short_list(count: int)
    requires
        0 < count <= 2 * DROPDOWN_PAGE + 1,
    ensures
        Move::PageForward.lands(Move::PageForward.lands(0, count), count) == count - 1,
{
}

/// How far each key moves: the arrows by one option, the page keys by a page,
/// all of them by no more than there is left in that direction, and Home and
/// End to the two ends.
pub proof fn a_move_covers_what_its_key_says(at: int, count: int)
    requires
        0 <= at < count,
    ensures
        at - Move::Previous.lands(at, count) == if at < 1 {
            at
        } else {
            1
        },
        Move::Next.lands(at, count) - at == if count - 1 - at < 1 {
            count - 1 - at
        } else {
            1
        },
        at - Move::PageBack.lands(at, count) == if at < DROPDOWN_PAGE {
            at
        } else {
            DROPDOWN_PAGE as int
        },
        Move::PageForward.lands(at, count) - at == if count - 1 - at < DROPDOWN_PAGE {
            count - 1 - at
        } else {
            DROPDOWN_PAGE as int
        },
        Move::First.lands(at, count) == 0,
        Move::Last.lands(at, count) == count - 1,
{
}

/// From past the end of a list that has shrunk, a key back moves as far as it
/// would anywhere, and a key forward lands on the last option; in an empty list
/// that is zero.
pub proof fn a_move_from_past_the_end_comes_back(at: int, count: int)
    requires
        0 <= count <= at,
    ensures
        Move::Next.lands(at, count) == Move::Last.lands(at, count),
        Move::PageForward.lands(at, count) == Move::Last.lands(at, count),
        Move::Last.lands(at, count) == if count == 0 {
            0
        } else {
            count - 1
        },
        Move::First.lands(at, count) == 0,
        at > 0 ==> Move::Previous.lands(at, count) == at - 1,
        at >= DROPDOWN_PAGE ==> Move::PageBack.lands(at, count) == at - DROPDOWN_PAGE,
        at < DROPDOWN_PAGE ==> Move::PageBack.lands(at, count) == 0,
        at == 0 ==> Move::Previous.lands(at, count) == 0,
{
}

/// From every position, a move that did not run into an end is undone by the
/// key opposite.
pub proof fn opposite_keys_undo_each_other(at: int, count: int)
    requires
        0 <= at < count,
    ensures
        at + DROPDOWN_PAGE < count ==> Move::PageBack.lands(
            Move::PageForward.lands(at, count),
            count,
        ) == at,
        at >= DROPDOWN_PAGE ==> Move::PageForward.lands(Move::PageBack.lands(at, count), count)
            == at,
        at + 1 < count ==> Move::Previous.lands(Move::Next.lands(at, count), count) == at,
        at >= 1 ==> Move::Next.lands(Move::Previous.lands(at, count), count) == at,
{
}

/// The ids of one list follow each other from a hundred times the control's own
/// above ten thousand, and nothing below ten thousand is an option.
pub proof fn option_ids_follow_each_other(id: HotspotId, index: int)
    requires
        index >= 0,
    ensures
        id.option_number(0) == 100 * id.0 + 10_000,
        id.option_number(index + 1) == id.option_number(index) + 1,
        id.as_option() is None <==> id.0 < 10_000,
        id.as_option() matches Some(pair) ==> id.0 == 100 * pair.0.0 + 10_000 + pair.1 && 0
            <= pair.1 < 100,
{
}

/// Two half gaps make a single one, give or take the pixel that an odd spacing
/// cannot split.
pub proof fn two_halves_make_a_single_gap(metrics: Metrics)
    ensures
        Gap::Single.pixels(metrics) == metrics.spacing,
        metrics.spacing >= 0 ==> 0 <= Gap::Single.pixels(metrics) - 2 * Gap::Half.pixels(metrics)
            <= 1,
        metrics.spacing <= 0 ==> -1 <= Gap::Single.pixels(metrics) - 2 * Gap::Half.pixels(metrics)
            <= 0,
{
}

/// What each kind of row takes of the window's height, counted in lines and
/// half gaps: a plain line exactly one line; a heading a line and a half gap
/// below it, and another half gap above it when it is not the first; a box a
/// line and a half gap; a list or a field two pixels more than a box, for the
/// focus ring; a title a line and a gap; the buttons the same below their
/// lead-in; and wrapped text whatever it measures in the width it flows into.
pub proof fn a_row_takes_its_lines_and_gaps(
    row: RowView,
    metrics: Metrics,
    wrap_width: int,
    seen: bool,
    model: TextModel,
)
    ensures
        ({
            let height = row.height(metrics, wrap_width, seen, model);
            let line = metrics.row_height as int;
            let half = Gap::Half.pixels(metrics);
            &&& (row is Pair || row is Notice || row is LabeledButton) ==> height == line
            &&& row is Header && seen ==> height == line + half + half
            &&& row is Header && !seen ==> height == line + half
            &&& row is Checkbox ==> height == line + half
            &&& (row is Dropdown || row is Field) ==> height == line + half + 2
            &&& row is TitleButton ==> height == line + metrics.spacing
            &&& row is Buttons ==> height == metrics.row_lead() + line + metrics.spacing
            &&& row matches RowView::Space(gap) ==> height == gap.pixels(metrics)
            &&& row matches RowView::Wrapped { text, .. } ==> height == (model.wrapped)(
                text,
                wrap_width,
            )
        }),
{
}

/// The buttons are the three kinds of row that raise one, and no other.
pub proof fn three_kinds_of_row_are_buttons(row: RowView)
    ensures
        row.is_button() <==> !(row is Header || row is Pair || row is Wrapped || row is Notice
            || row is Checkbox || row is Dropdown || row is Field || row is Space),
{
}

} // verus!
