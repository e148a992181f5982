//! The layout arithmetic: how wide the two columns must be, how tall the rows
//! come out, and the memoised size the painter and the window frame both read.
//!
//! [`text`](crate::text) answers "how wide is this string in this font";
//! everything here is what is done with that answer.

use crate::arith::{fits, larger, larger_i64, toward_zero};
use crate::dpi::scaled_96;
use crate::fingerprint::{size_key, text_fingerprint};
use crate::row::{items_view, rows_view, DropdownItem, ItemView, Row, RowView};
use crate::scrollbar::{bar_width_for, scrollbar_width_for};
use crate::text::{Script, ScriptView, TextMetrics, TextModel};
use crate::theme::{Metrics, ScaledTheme, Theme};
use vstd::prelude::*;

verus! {

/// What the two columns and the full-width rows demand of the window, and the
/// one button width the value column was charged for.
#[derive(Clone, Copy, PartialEq, Eq, Debug, Structural)]
pub struct Columns {
    /// The width each column gets: the larger of the two sides, since both are
    /// drawn at the same width so that the divide falls on the centre.
    pub half: i32,
    /// The floor set by rows that span the window instead of splitting.
    pub wide_single: i32,
    /// The shared width of the value-column action buttons.
    pub action_button: i32,
}

/// What one measuring pass produces: the client area the rows need, and the
/// column widths that answer came out of.
#[derive(Clone, Copy, PartialEq, Eq, Debug, Structural)]
pub struct Measured {
    pub width: i32,
    pub height: i32,
    pub columns: Columns,
}

/// The width one button needs to hold `caption`: the text plus symmetric
/// padding, never below the minimum.
pub open spec fn fitted_width(caption: Seq<char>, btn_min: int, spacing: int, model: TextModel) -> int {
    larger((model.line)(caption, false) + spacing * 4, btn_min)
}

/// The width of each button of a dialog's pair: what the wider caption needs,
/// on a floor a spacing wider on each side.
pub open spec fn pair_width(
    left: Seq<char>,
    right: Seq<char>,
    btn_min: int,
    spacing: int,
    model: TextModel,
) -> int {
    larger(
        larger(
            fitted_width(left, btn_min, spacing, model),
            fitted_width(right, btn_min, spacing, model),
        ),
        btn_min + spacing * 2,
    )
}

/// The shared width of the value-column buttons of `rows`: the widest caption
/// any of them needs, or the minimum when there is none.
pub open spec fn action_width(rows: Seq<RowView>, btn_min: int, spacing: int, model: TextModel) -> int
    decreases rows.len(),
{
    if rows.len() == 0 {
        btn_min
    } else {
        let before = action_width(rows.drop_last(), btn_min, spacing, model);
        match rows.last() {
            RowView::LabeledButton { button, .. } => larger(
                before,
                fitted_width(button, btn_min, spacing, model),
            ),
            _ => before,
        }
    }
}

/// The width of the widest of some options; zero when there are none.
pub open spec fn widest_option(options: Seq<ItemView>, model: TextModel) -> int
    decreases options.len(),
{
    if options.len() == 0 {
        0
    } else if options.len() == 1 {
        (model.option)(options[0])
    } else {
        larger(widest_option(options.drop_last(), model), (model.option)(options.last()))
    }
}

/// What a row asks of the label column.
pub open spec fn label_need(row: RowView, model: TextModel) -> int {
    match row {
        RowView::Pair { label, .. } => (model.line)(label, false),
        RowView::Dropdown { label, .. } => (model.line)(label, false),
        RowView::Field { label, .. } => (model.line)(label, false),
        RowView::LabeledButton { label, .. } => (model.line)(label, false),
        _ => 0,
    }
}

/// What a row asks of the value column, its action button being `action` wide.
///
/// A dropdown is as wide as its widest option, with the padding of its box, the
/// disclosure arrow, and the scrollbar when its list is long enough to have
/// one. A button sits on the value's own line, right of it.
pub open spec fn value_need(row: RowView, m: Metrics, action: int, model: TextModel) -> int {
    match row {
        RowView::Pair { value, .. } => (model.line)(value, false),
        RowView::Dropdown { options, .. } => widest_option(options, model) + m.spacing * 2
            + m.row_height + bar_width_for(options.len() as int, m.row_height as int),
        RowView::Field { value, .. } => (model.line)(value, false) + m.spacing * 4,
        RowView::LabeledButton { value, .. } => (model.line)(value, false) + m.spacing + action,
        _ => 0,
    }
}

/// What a row that spans the window asks of its whole width. Wrapped text and
/// notices take whatever the rest of the window sets.
pub open spec fn single_need(row: RowView, m: Metrics, model: TextModel) -> int {
    match row {
        RowView::Header(text) => (model.line)(text, true),
        RowView::Checkbox { label, depth, .. } => m.indent * depth + m.row_height + m.spacing
            + (model.line)(label, false),
        RowView::Buttons { left, right, .. } => pair_width(
            left,
            right,
            m.button_min_width as int,
            m.spacing as int,
            model,
        ) * 2 + m.spacing,
        RowView::TitleButton { title, button, .. } => (model.line)(title, true) + m.spacing * 2
            + fitted_width(button, m.button_min_width as int, m.spacing as int, model),
        _ => 0,
    }
}

/// The largest need of any row, and at least zero.
pub open spec fn widest(rows: Seq<RowView>, need: spec_fn(RowView) -> int) -> int
    decreases rows.len(),
{
    if rows.len() == 0 {
        0
    } else {
        larger(widest(rows.drop_last(), need), need(rows.last()))
    }
}

/// The shared action-button width of `rows` under a theme's metrics.
pub open spec fn action_need(rows: Seq<RowView>, m: Metrics, model: TextModel) -> int {
    action_width(rows, m.button_min_width as int, m.spacing as int, model)
}

/// The width of the widest label.
pub open spec fn labels_need(rows: Seq<RowView>, model: TextModel) -> int {
    widest(rows, |row: RowView| label_need(row, model))
}

/// The width of the widest value, its buttons included.
pub open spec fn values_need(rows: Seq<RowView>, m: Metrics, action: int, model: TextModel) -> int {
    widest(rows, |row: RowView| value_need(row, m, action, model))
}

/// The width of the widest row that spans the window.
pub open spec fn singles_need(rows: Seq<RowView>, m: Metrics, model: TextModel) -> int {
    widest(rows, |row: RowView| single_need(row, m, model))
}

/// The width each column needs: the labels and the gap after them, or the
/// values, whichever is more.
pub open spec fn half_need(rows: Seq<RowView>, m: Metrics, model: TextModel) -> int {
    larger(
        labels_need(rows, model) + m.column_gap,
        values_need(rows, m, action_need(rows, m, model), model),
    )
}

/// The client width the rows need.
pub open spec fn width_need(rows: Seq<RowView>, m: Metrics, model: TextModel) -> int {
    m.padding * 2 + larger(half_need(rows, m, model) * 2, singles_need(rows, m, model))
}

/// Whether the column widths of `rows` are pixel counts.
pub open spec fn columns_fit(rows: Seq<RowView>, m: Metrics, model: TextModel) -> bool {
    &&& fits(half_need(rows, m, model))
    &&& fits(singles_need(rows, m, model))
    &&& fits(action_need(rows, m, model))
}

fn fitted<M: TextMetrics>(caption: &str, btn_min: i32, spacing: i32, metrics: &mut M) -> (w: i64)
    ensures
        w == fitted_width(caption@, btn_min as int, spacing as int, old(metrics).model()),
        -0x4_0000_0000 <= w <= 0x4_0000_0000,
        final(metrics).model() == old(metrics).model(),
{
    larger_i64(metrics.line_width(caption, false) as i64 + spacing as i64 * 4, btn_min as i64)
}

/// The width one button needs to hold `caption`: the text plus symmetric
/// padding, never below the theme's minimum. Every button is sized by it.
pub fn button_width_for<M: TextMetrics>(
    caption: &str,
    btn_min: i32,
    spacing: i32,
    metrics: &mut M,
) -> (w: i32)
    requires
        fits(fitted_width(caption@, btn_min as int, spacing as int, old(metrics).model())),
    ensures
        w == fitted_width(caption@, btn_min as int, spacing as int, old(metrics).model()),
        final(metrics).model() == old(metrics).model(),
{
    fitted(caption, btn_min, spacing, metrics) as i32
}

fn paired<M: TextMetrics>(
    left: &str,
    right: &str,
    btn_min: i32,
    spacing: i32,
    metrics: &mut M,
) -> (w: i64)
    ensures
        w == pair_width(left@, right@, btn_min as int, spacing as int, old(metrics).model()),
        -0x4_0000_0000 <= w <= 0x4_0000_0000,
        final(metrics).model() == old(metrics).model(),
{
    let near: i64 = fitted(left, btn_min, spacing, metrics);
    let far: i64 = fitted(right, btn_min, spacing, metrics);
    larger_i64(larger_i64(near, far), btn_min as i64 + spacing as i64 * 2)
}

/// The width of each button in a dialog's OK/Cancel row: both take what the
/// wider caption needs, on a floor larger than elsewhere.
pub fn dialog_button_width<M: TextMetrics>(
    left: &str,
    right: &str,
    btn_min: i32,
    spacing: i32,
    metrics: &mut M,
) -> (w: i32)
    requires
        fits(pair_width(left@, right@, btn_min as int, spacing as int, old(metrics).model())),
    ensures
        w == pair_width(left@, right@, btn_min as int, spacing as int, old(metrics).model()),
        final(metrics).model() == old(metrics).model(),
{
    paired(left, right, btn_min, spacing, metrics) as i32
}

fn widest_action<M: TextMetrics>(
    rows: &[Row],
    btn_min: i32,
    spacing: i32,
    metrics: &mut M,
) -> (w: i64)
    ensures
        w == action_width(
            rows_view(rows@),
            btn_min as int,
            spacing as int,
            old(metrics).model(),
        ),
        -0x4_0000_0000 <= w <= 0x4_0000_0000,
        final(metrics).model() == old(metrics).model(),
{
    let mut width: i64 = btn_min as i64;
    let mut i: usize = 0;
    let ghost model = metrics.model();
    let ghost views = rows_view(rows@);
    proof {
        assert(views.take(0) =~= seq![]);
    }
    while i < rows.len()
        invariant
            i <= rows@.len(),
            views == rows_view(rows@),
            metrics.model() == model,
            width == action_width(views.take(i as int), btn_min as int, spacing as int, model),
            -0x4_0000_0000 <= width <= 0x4_0000_0000,
        decreases rows.len() - i,
    {
        proof {
            assert(views.take(i + 1).drop_last() =~= views.take(i as int));
            assert(views.take(i + 1).last() == rows@[i as int]@);
        }
        match &rows[i] {
            Row::LabeledButton { button, .. } => {
                width = larger_i64(width, fitted(button.as_str(), btn_min, spacing, metrics));
            },
            _ => {},
        }
        i = i + 1;
    }
    proof {
        assert(views.take(i as int) =~= views);
    }
    width
}

/// The shared width of the value-column action buttons: the widest caption any
/// of `rows` needs, floored at `btn_min`.
pub fn action_button_width<M: TextMetrics>(
    rows: &[Row],
    btn_min: i32,
    spacing: i32,
    metrics: &mut M,
) -> (w: i32)
    requires
        fits(
            action_width(rows_view(rows@), btn_min as int, spacing as int, old(metrics).model()),
        ),
    ensures
        w == action_width(
            rows_view(rows@),
            btn_min as int,
            spacing as int,
            old(metrics).model(),
        ),
        final(metrics).model() == old(metrics).model(),
{
    widest_action(rows, btn_min, spacing, metrics) as i32
}

fn option_reach<M: TextMetrics>(options: &Vec<DropdownItem>, metrics: &mut M) -> (w: i32)
    ensures
        w == widest_option(items_view(options@), old(metrics).model()),
        final(metrics).model() == old(metrics).model(),
{
    if options.len() == 0 {
        return 0;
    }
    let ghost model = metrics.model();
    let ghost views = items_view(options@);
    let mut width: i32 = metrics.option_width(&options[0]);
    let mut i: usize = 1;
    while i < options.len()
        invariant
            1 <= i <= options@.len(),
            views == items_view(options@),
            metrics.model() == model,
            width == widest_option(views.take(i as int), model),
        decreases options.len() - i,
    {
        proof {
            assert(views.take(i + 1).drop_last() =~= views.take(i as int));
            assert(views.take(i + 1).last() == options@[i as int]@);
        }
        let next: i32 = metrics.option_width(&options[i]);
        if next > width {
            width = next;
        }
        i = i + 1;
    }
    proof {
        assert(views.take(i as int) =~= views);
    }
    width
}

fn label_charge<M: TextMetrics>(row: &Row, metrics: &mut M) -> (w: i64)
    ensures
        w == label_need(row@, old(metrics).model()),
        -0x8000_0000 <= w <= 0x7FFF_FFFF,
        final(metrics).model() == old(metrics).model(),
{
    match row {
        Row::Pair { label, .. } => metrics.line_width(label.as_str(), false) as i64,
        Row::Dropdown { label, .. } => metrics.line_width(label.as_str(), false) as i64,
        Row::Field { label, .. } => metrics.line_width(label.as_str(), false) as i64,
        Row::LabeledButton { label, .. } => metrics.line_width(label.as_str(), false) as i64,
        _ => 0,
    }
}

fn value_charge<M: TextMetrics>(row: &Row, m: Metrics, action: i64, metrics: &mut M) -> (w: i64)
    requires
        -0x4_0000_0000 <= action <= 0x4_0000_0000,
    ensures
        w == value_need(row@, m, action as int, old(metrics).model()),
        -0x100_0000_0000 <= w <= 0x100_0000_0000,
        final(metrics).model() == old(metrics).model(),
{
    let spacing: i64 = m.spacing as i64;
    match row {
        Row::Pair { value, .. } => metrics.line_width(value.as_str(), false) as i64,
        Row::Dropdown { options, .. } => {
            let widest: i64 = option_reach(options, metrics) as i64;
            let bar: i64 = scrollbar_width_for(options.len(), m.row_height) as i64;
            widest + spacing * 2 + m.row_height as i64 + bar
        },
        Row::Field { value, .. } => metrics.line_width(value.as_str(), false) as i64 + spacing * 4,
        Row::LabeledButton { value, .. } => metrics.line_width(value.as_str(), false) as i64
            + spacing + action,
        _ => 0,
    }
}

fn single_charge<M: TextMetrics>(row: &Row, m: Metrics, metrics: &mut M) -> (w: i64)
    ensures
        w == single_need(row@, m, old(metrics).model()),
        -0x100_0000_0000 <= w <= 0x100_0000_0000,
        final(metrics).model() == old(metrics).model(),
{
    let spacing: i64 = m.spacing as i64;
    match row {
        Row::Header(text) => metrics.line_width(text.as_str(), true) as i64,
        Row::Checkbox { label, depth, .. } => {
            proof {
                assert(-0x8000_0000 * 255 <= m.indent * *depth <= 0x7FFF_FFFF * 255)
                    by (nonlinear_arith)
                    requires
                        -0x8000_0000 <= m.indent <= 0x7FFF_FFFF,
                        0 <= *depth <= 255,
                ;
            }
            m.indent as i64 * *depth as i64 + m.row_height as i64 + spacing + metrics.line_width(
                label.as_str(),
                false,
            ) as i64
        },
        Row::Buttons { left, right, .. } => {
            let pair: i64 = paired(
                left.as_str(),
                right.as_str(),
                m.button_min_width,
                m.spacing,
                metrics,
            );
            pair * 2 + spacing
        },
        Row::TitleButton { title, button, .. } => {
            let text: i64 = metrics.line_width(title.as_str(), true) as i64;
            text + spacing * 2 + fitted(button.as_str(), m.button_min_width, m.spacing, metrics)
        },
        _ => 0,
    }
}

struct Tally {
    labels: i64,
    values: i64,
    singles: i64,
}

fn tally<M: TextMetrics>(rows: &[Row], m: Metrics, action: i64, metrics: &mut M) -> (t: Tally)
    requires
        -0x4_0000_0000 <= action <= 0x4_0000_0000,
    ensures
        t.labels == labels_need(rows_view(rows@), old(metrics).model()),
        t.values == values_need(rows_view(rows@), m, action as int, old(metrics).model()),
        t.singles == singles_need(rows_view(rows@), m, old(metrics).model()),
        0 <= t.labels <= 0x7FFF_FFFF,
        0 <= t.values <= 0x100_0000_0000,
        0 <= t.singles <= 0x100_0000_0000,
        final(metrics).model() == old(metrics).model(),
{
    let mut t = Tally { labels: 0, values: 0, singles: 0 };
    let mut i: usize = 0;
    let ghost model = metrics.model();
    let ghost views = rows_view(rows@);
    proof {
        assert(views.take(0) =~= seq![]);
    }
    while i < rows.len()
        invariant
            i <= rows@.len(),
            views == rows_view(rows@),
            metrics.model() == model,
            -0x4_0000_0000 <= action <= 0x4_0000_0000,
            t.labels == labels_need(views.take(i as int), model),
            t.values == values_need(views.take(i as int), m, action as int, model),
            t.singles == singles_need(views.take(i as int), m, model),
            0 <= t.labels <= 0x7FFF_FFFF,
            0 <= t.values <= 0x100_0000_0000,
            0 <= t.singles <= 0x100_0000_0000,
        decreases rows.len() - i,
    {
        proof {
            assert(views.take(i + 1).drop_last() =~= views.take(i as int));
            assert(views.take(i + 1).last() == rows@[i as int]@);
        }
        let label: i64 = label_charge(&rows[i], metrics);
        let value: i64 = value_charge(&rows[i], m, action, metrics);
        let single: i64 = single_charge(&rows[i], m, metrics);
        t = Tally {
            labels: larger_i64(t.labels, label),
            values: larger_i64(t.values, value),
            singles: larger_i64(t.singles, single),
        };
        i = i + 1;
    }
    proof {
        assert(views.take(i as int) =~= views);
    }
    t
}

/// A maximum over two lists is the larger of their maxima.
pub proof fn widest_of_both(a: Seq<RowView>, b: Seq<RowView>, need: spec_fn(RowView) -> int)
    ensures
        widest(a + b, need) == larger(widest(a, need), widest(b, need)),
        widest(b, need) >= 0,
    decreases b.len(),
{
    if b.len() == 0 {
        assert(a + b =~= a);
        widest_is_not_negative(a, need);
    } else {
        assert((a + b).drop_last() =~= a + b.drop_last());
        widest_of_both(a, b.drop_last(), need);
    }
}

pub proof fn widest_is_not_negative(rows: Seq<RowView>, need: spec_fn(RowView) -> int)
    ensures
        widest(rows, need) >= 0,
    decreases rows.len(),
{
    if rows.len() > 0 {
        widest_is_not_negative(rows.drop_last(), need);
    }
}

/// The action width of two lists is the larger of theirs.
pub proof fn action_width_of_both(
    a: Seq<RowView>,
    b: Seq<RowView>,
    btn_min: int,
    spacing: int,
    model: TextModel,
)
    ensures
        action_width(a + b, btn_min, spacing, model) == larger(
            action_width(a, btn_min, spacing, model),
            action_width(b, btn_min, spacing, model),
        ),
        action_width(a, btn_min, spacing, model) >= btn_min,
        action_width(b, btn_min, spacing, model) >= btn_min,
    decreases a.len() + b.len(),
{
    if b.len() == 0 {
        assert(a + b =~= a);
        if a.len() > 0 {
            action_width_of_both(a.drop_last(), b, btn_min, spacing, model);
        }
    } else {
        assert((a + b).drop_last() =~= a + b.drop_last());
        action_width_of_both(a, b.drop_last(), btn_min, spacing, model);
    }
}

struct Reach {
    half: i64,
    single: i64,
    action: i64,
}

/// Measures both columns, whether or not what they need is a pixel count.
///
/// The action buttons come first, because their shared width is a term in what
/// the value column is then charged.
fn reach<M: TextMetrics>(rows: &[Row], samples: &[Row], m: Metrics, metrics: &mut M) -> (r: Reach)
    ensures
        r.half == half_need(rows_view(rows@) + rows_view(samples@), m, old(metrics).model()),
        r.single == singles_need(rows_view(rows@) + rows_view(samples@), m, old(metrics).model()),
        r.action == action_need(rows_view(rows@) + rows_view(samples@), m, old(metrics).model()),
        -0x200_0000_0000 <= r.half <= 0x200_0000_0000,
        0 <= r.single <= 0x200_0000_0000,
        final(metrics).model() == old(metrics).model(),
{
    let ghost model = metrics.model();
    let ghost a = rows_view(rows@);
    let ghost b = rows_view(samples@);
    let action: i64 = larger_i64(
        widest_action(rows, m.button_min_width, m.spacing, metrics),
        widest_action(samples, m.button_min_width, m.spacing, metrics),
    );
    proof {
        action_width_of_both(a, b, m.button_min_width as int, m.spacing as int, model);
    }
    let drawn = tally(rows, m, action, metrics);
    let sampled = tally(samples, m, action, metrics);
    proof {
        widest_of_both(a, b, |row: RowView| label_need(row, model));
        widest_of_both(a, b, |row: RowView| value_need(row, m, action as int, model));
        widest_of_both(a, b, |row: RowView| single_need(row, m, model));
    }
    let labels: i64 = larger_i64(drawn.labels, sampled.labels);
    let values: i64 = larger_i64(drawn.values, sampled.values);
    Reach {
        half: larger_i64(labels + m.column_gap as i64, values),
        single: larger_i64(drawn.singles, sampled.singles),
        action,
    }
}

/// Measures both columns over the rows that are drawn and the samples that
/// stand for what they may come to show.
pub fn column_needs<M: TextMetrics>(
    rows: &[Row],
    samples: &[Row],
    theme: &ScaledTheme,
    metrics: &mut M,
) -> (c: Columns)
    requires
        columns_fit(
            rows_view(rows@) + rows_view(samples@),
            theme.geometry(),
            old(metrics).model(),
        ),
    ensures
        c.half == half_need(
            rows_view(rows@) + rows_view(samples@),
            theme.geometry(),
            old(metrics).model(),
        ),
        c.wide_single == singles_need(
            rows_view(rows@) + rows_view(samples@),
            theme.geometry(),
            old(metrics).model(),
        ),
        c.action_button == action_need(
            rows_view(rows@) + rows_view(samples@),
            theme.geometry(),
            old(metrics).model(),
        ),
        final(metrics).model() == old(metrics).model(),
{
    let r = reach(rows, samples, theme.metrics(), metrics);
    Columns { half: r.half as i32, wide_single: r.single as i32, action_button: r.action as i32 }
}

/// The content width and the column widths behind it.
///
/// Both columns are given the same width, so the value column starts on the
/// window's vertical centre line in every language.
pub fn content_geometry<M: TextMetrics>(
    rows: &[Row],
    samples: &[Row],
    theme: &ScaledTheme,
    metrics: &mut M,
) -> (r: (i32, Columns))
    requires
        columns_fit(
            rows_view(rows@) + rows_view(samples@),
            theme.geometry(),
            old(metrics).model(),
        ),
        fits(
            width_need(
                rows_view(rows@) + rows_view(samples@),
                theme.geometry(),
                old(metrics).model(),
            ),
        ),
    ensures
        r.0 == width_need(
            rows_view(rows@) + rows_view(samples@),
            theme.geometry(),
            old(metrics).model(),
        ),
        r.1.half == half_need(
            rows_view(rows@) + rows_view(samples@),
            theme.geometry(),
            old(metrics).model(),
        ),
        r.1.wide_single == singles_need(
            rows_view(rows@) + rows_view(samples@),
            theme.geometry(),
            old(metrics).model(),
        ),
        r.1.action_button == action_need(
            rows_view(rows@) + rows_view(samples@),
            theme.geometry(),
            old(metrics).model(),
        ),
        final(metrics).model() == old(metrics).model(),
{
    let pad: i64 = theme.metrics().padding as i64;
    let needs = column_needs(rows, samples, theme, metrics);
    let width: i64 = pad * 2 + larger_i64(needs.half as i64 * 2, needs.wide_single as i64);
    (width as i32, needs)
}

/// The width of each column in a window `content` wide: half of what the
/// padding leaves, and never below what the columns need.
pub open spec fn half_in(content: int, need: int, m: Metrics) -> int {
    larger(need, toward_zero(content - m.padding * 2, 2))
}

/// Where the label column begins in a window `content` wide.
pub open spec fn origin_in(content: int, need: int, m: Metrics) -> int {
    m.padding + toward_zero(
        larger(content - m.padding * 2 - half_in(content, need, m) * 2, 0),
        2,
    )
}

/// Where the two columns begin, and how wide each of them is.
///
/// Returns `(left_edge, half_width)`: the label column occupies `left_edge ..
/// left_edge + half` and the value column begins at `left_edge + half`. When a
/// full-width row forced the window wider than the columns needed, the surplus
/// goes into the columns.
pub fn column_origin(content: i32, half_need: i32, theme: &ScaledTheme) -> (r: (i32, i32))
    requires
        fits(half_in(content as int, half_need as int, theme.geometry())),
    ensures
        r.0 == origin_in(content as int, half_need as int, theme.geometry()),
        r.1 == half_in(content as int, half_need as int, theme.geometry()),
{
    let pad: i64 = theme.metrics().padding as i64;
    let usable: i64 = content as i64 - pad * 2;
    // Never below what the columns need; a window narrower than its content
    // clips rather than centres.
    let half: i64 = larger_i64(half_need as i64, usable / 2);
    let slack: i64 = larger_i64(usable - half * 2, 0);
    ((pad + slack / 2) as i32, half as i32)
}

/// The width full-width text is laid into in a window `width` wide.
pub open spec fn text_width_in(width: int, need: int, m: Metrics) -> int {
    larger(width - origin_in(width, need, m) * 2, 1)
}

/// The width full-width text is laid into, given the client width and the
/// column widths behind it: what [`column_origin`] leaves between its margins.
pub fn text_column_width(width: i32, needs: Columns, theme: &ScaledTheme) -> (r: i32)
    requires
        fits(half_in(width as int, needs.half as int, theme.geometry())),
        fits(text_width_in(width as int, needs.half as int, theme.geometry())),
    ensures
        r == text_width_in(width as int, needs.half as int, theme.geometry()),
{
    let (origin, _) = column_origin(width, needs.half, theme);
    larger_i64(width as i64 - origin as i64 * 2, 1) as i32
}

/// Whether any of `rows` is a header.
pub open spec fn has_header(rows: Seq<RowView>) -> bool
    decreases rows.len(),
{
    rows.len() > 0 && (rows.last() is Header || has_header(rows.drop_last()))
}

/// The heights of `rows` one under the other.
pub open spec fn stacked(rows: Seq<RowView>, m: Metrics, wrap_width: int, model: TextModel) -> int
    decreases rows.len(),
{
    if rows.len() == 0 {
        0
    } else {
        stacked(rows.drop_last(), m, wrap_width, model) + rows.last().height(
            m,
            wrap_width,
            has_header(rows.drop_last()),
            model,
        )
    }
}

/// The client height of a window showing `rows`: the padding at both ends, the
/// slack under the last row, and the rows.
pub open spec fn height_need(rows: Seq<RowView>, m: Metrics, wrap_width: int, model: TextModel) -> int {
    m.padding * 2 + m.slack() + stacked(rows, m, wrap_width, model)
}

/// Measures how tall the given rows will be, whether or not that is a pixel
/// count.
fn total_height<M: TextMetrics>(
    rows: &[Row],
    theme: &ScaledTheme,
    wrap_width: i32,
    metrics: &mut M,
) -> (h: i128)
    ensures
        h == height_need(
            rows_view(rows@),
            theme.geometry(),
            wrap_width as int,
            old(metrics).model(),
        ),
        final(metrics).model() == old(metrics).model(),
{
    let ghost model = metrics.model();
    let ghost views = rows_view(rows@);
    let ghost m = theme.geometry();
    let mut header_seen: bool = false;
    let mut sum: i128 = 0;
    let mut i: usize = 0;
    proof {
        assert(views.take(0) =~= seq![]);
    }
    while i < rows.len()
        invariant
            i <= rows@.len(),
            views == rows_view(rows@),
            m == theme.geometry(),
            metrics.model() == model,
            header_seen == has_header(views.take(i as int)),
            sum == stacked(views.take(i as int), m, wrap_width as int, model),
            -0x4_0000_0000 * i <= sum <= 0x4_0000_0000 * i,
        decreases rows.len() - i,
    {
        proof {
            assert(views.take(i + 1).drop_last() =~= views.take(i as int));
            assert(views.take(i + 1).last() == views[i as int]);
            assert(views[i as int] == rows@[i as int]@);
        }
        let h: i64 = rows[i].extent(theme, wrap_width, header_seen, metrics);
        sum = sum + h as i128;
        match &rows[i] {
            Row::Header(_) => {
                header_seen = true;
            },
            _ => {},
        }
        i = i + 1;
    }
    proof {
        assert(views.take(i as int) =~= views);
    }
    let pad: i128 = theme.metrics().padding as i128;
    let slack: i128 = theme.metrics().bottom_slack() as i128;
    pad * 2 + slack + sum
}

/// Measures how tall the given rows will be.
///
/// `wrap_width` is the text column, what [`text_column_width`] returns for the
/// client width: wrapped rows are measured at the width they are laid into. The
/// lead-in above a heading is charged for every heading except the first.
pub fn measure_with<M: TextMetrics>(
    rows: &[Row],
    theme: &ScaledTheme,
    wrap_width: i32,
    metrics: &mut M,
) -> (h: i32)
    requires
        fits(
            height_need(
                rows_view(rows@),
                theme.geometry(),
                wrap_width as int,
                old(metrics).model(),
            ),
        ),
    ensures
        h == height_need(
            rows_view(rows@),
            theme.geometry(),
            wrap_width as int,
            old(metrics).model(),
        ),
        final(metrics).model() == old(metrics).model(),
{
    total_height(rows, theme, wrap_width, metrics) as i32
}

/// What a window showing `rows`, sized for `samples` too, measures to.
pub open spec fn measured(
    rows: Seq<RowView>,
    samples: Seq<RowView>,
    m: Metrics,
    min_width: int,
    model: TextModel,
) -> Measured {
    let all = rows + samples;
    let width = larger(width_need(all, m, model), min_width);
    let wrap = text_width_in(width, half_need(all, m, model), m);
    Measured {
        width: width as i32,
        height: height_need(rows, m, wrap, model) as i32,
        columns: Columns {
            half: half_need(all, m, model) as i32,
            wide_single: singles_need(all, m, model) as i32,
            action_button: action_need(all, m, model) as i32,
        },
    }
}

/// Whether every number behind that measurement is a pixel count.
pub open spec fn measurable(
    rows: Seq<RowView>,
    samples: Seq<RowView>,
    m: Metrics,
    min_width: int,
    model: TextModel,
) -> bool {
    let all = rows + samples;
    let width = larger(width_need(all, m, model), min_width);
    let half = half_need(all, m, model);
    let wrap = text_width_in(width, half, m);
    &&& columns_fit(all, m, model)
    &&& fits(width_need(all, m, model))
    &&& fits(half_in(width, half, m))
    &&& fits(wrap)
    &&& fits(height_need(rows, m, wrap, model))
}

/// One measuring pass: the client area the rows need.
pub fn measure_content<M: TextMetrics>(
    rows: &[Row],
    samples: &[Row],
    theme: &ScaledTheme,
    min_width: i32,
    metrics: &mut M,
) -> (r: Measured)
    requires
        measurable(
            rows_view(rows@),
            rows_view(samples@),
            theme.geometry(),
            min_width as int,
            old(metrics).model(),
        ),
    ensures
        r == measured(
            rows_view(rows@),
            rows_view(samples@),
            theme.geometry(),
            min_width as int,
            old(metrics).model(),
        ),
        final(metrics).model() == old(metrics).model(),
{
    let (needed, columns) = content_geometry(rows, samples, theme, metrics);
    let width: i32 = if needed >= min_width {
        needed
    } else {
        min_width
    };
    let wrap: i32 = text_column_width(width, columns, theme);
    let height: i32 = measure_with(rows, theme, wrap, metrics);
    Measured { width, height, columns }
}

fn in_range(x: i64) -> (r: bool)
    ensures
        r == fits(x as int),
{
    i32::MIN as i64 <= x && x <= i32::MAX as i64
}

/// One measuring pass, or `None` when some number behind the measurement is not
/// a pixel count.
pub fn try_measure_content<M: TextMetrics>(
    rows: &[Row],
    samples: &[Row],
    theme: &ScaledTheme,
    min_width: i32,
    metrics: &mut M,
) -> (r: Option<Measured>)
    ensures
        r == (if measurable(
            rows_view(rows@),
            rows_view(samples@),
            theme.geometry(),
            min_width as int,
            old(metrics).model(),
        ) {
            Some(
                measured(
                    rows_view(rows@),
                    rows_view(samples@),
                    theme.geometry(),
                    min_width as int,
                    old(metrics).model(),
                ),
            )
        } else {
            None
        }),
        final(metrics).model() == old(metrics).model(),
{
    let m = theme.metrics();
    let pad: i64 = m.padding as i64;
    let reached = reach(rows, samples, m, metrics);
    let needed: i64 = pad * 2 + larger_i64(reached.half * 2, reached.single);
    if !in_range(reached.half) || !in_range(reached.single) || !in_range(reached.action)
        || !in_range(needed) {
        return None;
    }
    let width: i64 = larger_i64(needed, min_width as i64);
    let usable: i64 = width - pad * 2;
    let half: i64 = larger_i64(reached.half, usable / 2);
    let origin: i64 = pad + larger_i64(usable - half * 2, 0) / 2;
    let wrap: i64 = larger_i64(width - origin * 2, 1);
    if !in_range(half) || !in_range(wrap) {
        return None;
    }
    let height: i128 = total_height(rows, theme, wrap as i32, metrics);
    if height < i32::MIN as i128 || height > i32::MAX as i128 {
        return None;
    }
    Some(
        Measured {
            width: width as i32,
            height: height as i32,
            columns: Columns {
                half: reached.half as i32,
                wide_single: reached.single as i32,
                action_button: reached.action as i32,
            },
        },
    )
}

/// Every input a measurement depends on.
#[derive(Clone, Copy, Debug)]
pub struct SizeKey {
    /// Fingerprint of the row text and the theme metrics.
    pub text: u64,
    /// The fonts the measurement was made under.
    pub script: Script,
    /// The width floor, which decides how wrapped rows break.
    pub min_width: i32,
}

/// What a key says.
pub struct SizeKeyView {
    pub text: u64,
    pub script: ScriptView,
    pub min_width: i32,
}

impl View for SizeKey {
    type V = SizeKeyView;

    open spec fn view(&self) -> SizeKeyView {
        SizeKeyView { text: self.text, script: self.script@, min_width: self.min_width }
    }
}

/// How many windows the cache serves at once.
pub const CACHE_SLOTS: usize = 4;

/// The sizes measured last, most recently used first.
#[derive(Debug)]
pub struct SizeCache {
    pub slots: Vec<(SizeKey, Measured)>,
}

/// What a cache says.
pub open spec fn slots_view(slots: Seq<(SizeKey, Measured)>) -> Seq<(SizeKeyView, Measured)> {
    Seq::new(slots.len(), |i: int| (slots[i].0@, slots[i].1))
}

impl View for SizeCache {
    type V = Seq<(SizeKeyView, Measured)>;

    open spec fn view(&self) -> Seq<(SizeKeyView, Measured)> {
        slots_view(self.slots@)
    }
}

/// The first slot that holds `key`, if one does.
pub open spec fn slot_of(slots: Seq<(SizeKeyView, Measured)>, key: SizeKeyView) -> Option<int>
    decreases slots.len(),
{
    if slots.len() == 0 {
        None
    } else if slots[0].0 == key {
        Some(0)
    } else {
        match slot_of(slots.skip(1), key) {
            Some(i) => Some(i + 1),
            None => None,
        }
    }
}

/// `slots` with the entry at `at` moved to the front.
pub open spec fn touched(slots: Seq<(SizeKeyView, Measured)>, at: int) -> Seq<
    (SizeKeyView, Measured),
> {
    seq![slots[at]] + slots.remove(at)
}

/// `slots` with an entry put in front, the last one dropped when there are more
/// than the cache holds.
pub open spec fn stored(
    slots: Seq<(SizeKeyView, Measured)>,
    key: SizeKeyView,
    value: Measured,
) -> Seq<(SizeKeyView, Measured)> {
    let grown = seq![(key, value)] + slots;
    if grown.len() > CACHE_SLOTS {
        grown.take(CACHE_SLOTS as int)
    } else {
        grown
    }
}

/// A slot that was found is in the cache and holds what was asked for.
pub proof fn a_found_slot_holds_its_key(slots: Seq<(SizeKeyView, Measured)>, key: SizeKeyView)
    ensures
        slot_of(slots, key) matches Some(i) ==> 0 <= i < slots.len() && slots[i].0 == key,
    decreases slots.len(),
{
    if slots.len() > 0 {
        a_found_slot_holds_its_key(slots.skip(1), key);
    }
}

impl SizeKey {
    /// Whether this is the same measurement as `other`.
    pub fn same(self, other: SizeKey) -> (r: bool)
        ensures
            r == (self@ == other@),
    {
        self.text == other.text && self.script.same(other.script) && self.min_width
            == other.min_width
    }
}

impl SizeCache {
    /// A cache that remembers nothing yet.
    pub fn new() -> (c: SizeCache)
        ensures
            c@.len() == 0,
    {
        SizeCache { slots: Vec::new() }
    }

    /// The remembered measurement for `key`, which becomes the most recently
    /// used one.
    pub fn lookup(&mut self, key: SizeKey) -> (r: Option<Measured>)
        ensures
            match slot_of(old(self)@, key@) {
                Some(i) => r == Some(old(self)@[i].1) && final(self)@ == touched(old(self)@, i),
                None => r is None && final(self)@ == old(self)@,
            },
    {
        let ghost before = self@;
        let mut i: usize = 0;
        proof {
            assert(before.skip(0) =~= before);
        }
        while i < self.slots.len()
            invariant
                i <= self.slots@.len(),
                self@ == before,
                before == old(self)@,
                before == slots_view(self.slots@),
                slot_of(before, key@) == (match slot_of(before.skip(i as int), key@) {
                    Some(j) => Some(i + j),
                    None => None,
                }),
            decreases self.slots.len() - i,
        {
            proof {
                assert(before.skip(i as int).skip(1) =~= before.skip(i + 1));
                assert(before.skip(i as int)[0] == before[i as int]);
            }
            if self.slots[i].0.same(key) {
                let entry = self.slots.remove(i);
                let measured = entry.1;
                self.slots.insert(0, entry);
                proof {
                    assert(self@ =~= touched(before, i as int));
                }
                return Some(measured);
            }
            i = i + 1;
        }
        None
    }

    /// Remembers a measurement, forgetting the least recently used one when the
    /// cache is full.
    pub fn store(&mut self, key: SizeKey, value: Measured)
        ensures
            final(self)@ == stored(old(self)@, key@, value),
    {
        let ghost before = self@;
        self.slots.insert(0, (key, value));
        if self.slots.len() > CACHE_SLOTS {
            self.slots.truncate(CACHE_SLOTS);
        }
        proof {
            assert(self@ =~= stored(before, key@, value));
        }
    }
}

/// A measurement that was stored is what the next search for it finds, and a
/// search finds it again at the front.
pub proof fn a_stored_size_is_found(
    slots: Seq<(SizeKeyView, Measured)>,
    key: SizeKeyView,
    value: Measured,
)
    ensures
        slot_of(stored(slots, key, value), key) == Some(0int),
        stored(slots, key, value)[0] == (key, value),
        stored(slots, key, value).len() <= CACHE_SLOTS,
{
}

/// Touching an entry loses none: the cache holds the same entries after it.
pub proof fn touching_keeps_every_entry(slots: Seq<(SizeKeyView, Measured)>, at: int)
    requires
        0 <= at < slots.len(),
    ensures
        touched(slots, at).to_multiset() == slots.to_multiset(),
        touched(slots, at)[0] == slots[at],
{
    vstd::seq_lib::lemma_multiset_commutative(seq![slots[at]], slots.remove(at));
    broadcast use vstd::seq_lib::group_to_multiset_ensures;
    let one = seq![slots[at]];
    assert(one =~= Seq::<(SizeKeyView, Measured)>::empty().push(slots[at]));
    assert(slots.remove(at).to_multiset().insert(slots[at]) =~= slots.to_multiset());
    assert(one.to_multiset().add(slots.remove(at).to_multiset()) =~= slots.to_multiset());
}

/// Whether a size under a key came out of a cache, which moved it to the front;
/// or is the fresh one, which the cache took in.
pub open spec fn remembered(
    before: Seq<(SizeKeyView, Measured)>,
    after: Seq<(SizeKeyView, Measured)>,
    key: SizeKeyView,
    size: Measured,
    fresh: Measured,
) -> bool {
    match slot_of(before, key) {
        Some(i) => size == before[i].1 && after == touched(before, i),
        None => size == fresh && after == stored(before, key, size),
    }
}

fn key_of(
    rows: &[Row],
    samples: &[Row],
    theme: &ScaledTheme,
    script: Script,
    min_width: i32,
) -> (key: SizeKey)
    ensures
        key@ == size_key(
            rows_view(rows@),
            rows_view(samples@),
            theme.geometry(),
            script@,
            min_width,
        ),
{
    let of_samples: u64 = text_fingerprint(samples, theme);
    let text: u64 = text_fingerprint(rows, theme) ^ ((of_samples << 1) | (of_samples >> 63));
    SizeKey { text, script, min_width }
}

/// The size a window needs, remembered under everything it depends on.
///
/// A repeated call with rows that measure alike returns the remembered answer
/// without measuring; scrolling a list or arrowing through one changes nothing
/// that is measured.
pub fn content_size<M: TextMetrics>(
    cache: &mut SizeCache,
    rows: &[Row],
    samples: &[Row],
    theme: &ScaledTheme,
    script: Script,
    min_width: i32,
    metrics: &mut M,
) -> (r: Measured)
    requires
        slot_of(
            old(cache)@,
            size_key(
                rows_view(rows@),
                rows_view(samples@),
                theme.geometry(),
                script@,
                min_width,
            ),
        ) is None ==> measurable(
            rows_view(rows@),
            rows_view(samples@),
            theme.geometry(),
            min_width as int,
            old(metrics).model(),
        ),
    ensures
        remembered(
            old(cache)@,
            final(cache)@,
            size_key(
                rows_view(rows@),
                rows_view(samples@),
                theme.geometry(),
                script@,
                min_width,
            ),
            r,
            measured(
                rows_view(rows@),
                rows_view(samples@),
                theme.geometry(),
                min_width as int,
                old(metrics).model(),
            ),
        ),
        final(metrics).model() == old(metrics).model(),
{
    let key = key_of(rows, samples, theme, script, min_width);
    match cache.lookup(key) {
        Some(measured) => measured,
        None => {
            let measured = measure_content(rows, samples, theme, min_width, metrics);
            cache.store(key, measured);
            measured
        },
    }
}

/// What the window should draw, with the size it was measured to.
#[derive(Debug, PartialEq)]
pub struct PanelContent {
    pub rows: Vec<Row>,
    /// Rows measured but never drawn: the widest text each column has to be
    /// able to hold, whatever the device happens to be reporting.
    pub samples: Vec<Row>,
    pub width: i32,
    pub height: i32,
    /// The column widths the size above came out of.
    pub columns: Columns,
}

impl PanelContent {
    /// The size it was measured to.
    pub open spec fn size(self) -> Measured {
        Measured { width: self.width, height: self.height, columns: self.columns }
    }

    /// The key a panel is remembered under.
    pub open spec fn key(
        rows: Seq<RowView>,
        samples: Seq<RowView>,
        theme: Theme,
        min_width: int,
        script: Script,
    ) -> SizeKeyView {
        size_key(
            rows,
            samples,
            theme.metrics.at(script.dpi.0 as int),
            script@,
            scaled_96(min_width, script.dpi.0 as int) as i32,
        )
    }

    /// What a panel measures to in a font.
    pub open spec fn fresh(
        rows: Seq<RowView>,
        samples: Seq<RowView>,
        theme: Theme,
        min_width: int,
        script: Script,
        model: TextModel,
    ) -> Measured {
        measured(
            rows,
            samples,
            theme.metrics.at(script.dpi.0 as int),
            scaled_96(min_width, script.dpi.0 as int),
            model,
        )
    }

    /// Whether a panel can be scaled to its monitor, and is remembered by a
    /// cache or can be measured.
    pub open spec fn has_a_size(
        slots: Seq<(SizeKeyView, Measured)>,
        rows: Seq<RowView>,
        samples: Seq<RowView>,
        theme: Theme,
        min_width: int,
        script: Script,
        model: TextModel,
    ) -> bool {
        &&& theme.metrics.scalable(script.dpi.0 as int)
        &&& fits(scaled_96(min_width, script.dpi.0 as int))
        &&& slot_of(slots, PanelContent::key(rows, samples, theme, min_width, script)) is Some
            || measurable(
            rows,
            samples,
            theme.metrics.at(script.dpi.0 as int),
            scaled_96(min_width, script.dpi.0 as int),
            model,
        )
    }

    /// Lays `rows` out and measures the client area they need.
    ///
    /// `theme` and `min_width` both arrive authored at 96 dots per inch and are
    /// scaled here, together. `samples` makes the width a property of the
    /// language rather than of this instant's reading.
    pub fn measure<M: TextMetrics>(
        cache: &mut SizeCache,
        rows: Vec<Row>,
        samples: Vec<Row>,
        theme: &Theme,
        min_width: i32,
        script: Script,
        metrics: &mut M,
    ) -> (c: PanelContent)
        requires
            PanelContent::has_a_size(
                old(cache)@,
                rows_view(rows@),
                rows_view(samples@),
                *theme,
                min_width as int,
                script,
                old(metrics).model(),
            ),
        ensures
            c.rows == rows,
            c.samples == samples,
            remembered(
                old(cache)@,
                final(cache)@,
                PanelContent::key(
                    rows_view(rows@),
                    rows_view(samples@),
                    *theme,
                    min_width as int,
                    script,
                ),
                c.size(),
                PanelContent::fresh(
                    rows_view(rows@),
                    rows_view(samples@),
                    *theme,
                    min_width as int,
                    script,
                    old(metrics).model(),
                ),
            ),
            final(metrics).model() == old(metrics).model(),
    {
        let scaled = theme.scaled(script.dpi);
        // The floor is authored like every metric, so it is scaled like one.
        let floor: i32 = script.dpi.scale_96(min_width);
        let size = content_size(
            cache,
            rows.as_slice(),
            samples.as_slice(),
            &scaled,
            script,
            floor,
            metrics,
        );
        PanelContent {
            rows,
            samples,
            width: size.width,
            height: size.height,
            columns: size.columns,
        }
    }

    /// Lays `rows` out as [`PanelContent::measure`] does, or gives `None` and
    /// leaves the cache as it is when the panel has no size in pixels.
    pub fn try_measure<M: TextMetrics>(
        cache: &mut SizeCache,
        rows: Vec<Row>,
        samples: Vec<Row>,
        theme: &Theme,
        min_width: i32,
        script: Script,
        metrics: &mut M,
    ) -> (r: Option<PanelContent>)
        ensures
            r is Some == PanelContent::has_a_size(
                old(cache)@,
                rows_view(rows@),
                rows_view(samples@),
                *theme,
                min_width as int,
                script,
                old(metrics).model(),
            ),
            r is None ==> final(cache)@ == old(cache)@,
            r matches Some(c) ==> c.rows == rows && c.samples == samples && remembered(
                old(cache)@,
                final(cache)@,
                PanelContent::key(
                    rows_view(rows@),
                    rows_view(samples@),
                    *theme,
                    min_width as int,
                    script,
                ),
                c.size(),
                PanelContent::fresh(
                    rows_view(rows@),
                    rows_view(samples@),
                    *theme,
                    min_width as int,
                    script,
                    old(metrics).model(),
                ),
            ),
            final(metrics).model() == old(metrics).model(),
    {
        if !theme.metrics.can_scale(script.dpi) || !script.dpi.can_scale_96(min_width) {
            return None;
        }
        let scaled = theme.scaled(script.dpi);
        let floor: i32 = script.dpi.scale_96(min_width);
        let key = key_of(rows.as_slice(), samples.as_slice(), &scaled, script, floor);
        let size = match cache.lookup(key) {
            Some(size) => size,
            None => match try_measure_content(
                rows.as_slice(),
                samples.as_slice(),
                &scaled,
                floor,
                metrics,
            ) {
                Some(size) => {
                    cache.store(key, size);
                    size
                },
                None => {
                    return None;
                },
            },
        };
        Some(
            PanelContent {
                rows,
                samples,
                width: size.width,
                height: size.height,
                columns: size.columns,
            },
        )
    }
}

/// The label column starts at the padding and the value column half a window
/// later: the surplus of a wide window goes into the columns, and what is left
/// over is at most one pixel, on the right.
pub proof fn the_columns_are_centred(content: int, need: int, m: Metrics)
    requires
        content - m.padding * 2 >= need * 2,
        content >= m.padding * 2,
    ensures
        origin_in(content, need, m) == m.padding,
        ({
            let divide = origin_in(content, need, m) + half_in(content, need, m);
            divide == content / 2
        }),
        ({
            let right = content - (origin_in(content, need, m) + 2 * half_in(content, need, m));
            m.padding <= right <= m.padding + 1
        }),
{
}

/// A window as wide as it was measured to be has room for the two columns
/// between its margins.
pub proof fn the_measured_width_holds_both_columns(
    rows: Seq<RowView>,
    m: Metrics,
    min_width: int,
    model: TextModel,
)
    ensures
        ({
            let width = larger(width_need(rows, m, model), min_width);
            &&& width - m.padding * 2 >= half_need(rows, m, model) * 2
            &&& width - m.padding * 2 >= singles_need(rows, m, model)
        }),
{
}

/// Every label and every value fits the half it is drawn in, and every action
/// button the width they share.
pub proof fn every_row_fits_its_column(
    rows: Seq<RowView>,
    i: int,
    m: Metrics,
    model: TextModel,
)
    requires
        0 <= i < rows.len(),
    ensures
        label_need(rows[i], model) + m.column_gap <= half_need(rows, m, model),
        value_need(rows[i], m, action_need(rows, m, model), model) <= half_need(rows, m, model),
        single_need(rows[i], m, model) <= singles_need(rows, m, model),
        rows[i] matches RowView::LabeledButton { button, .. } ==> fitted_width(
            button,
            m.button_min_width as int,
            m.spacing as int,
            model,
        ) <= action_need(rows, m, model),
{
    let action = action_need(rows, m, model);
    widest_bounds_each(rows, i, |row: RowView| label_need(row, model));
    widest_bounds_each(rows, i, |row: RowView| value_need(row, m, action, model));
    widest_bounds_each(rows, i, |row: RowView| single_need(row, m, model));
    action_width_bounds_each(rows, i, m.button_min_width as int, m.spacing as int, model);
}

pub proof fn widest_bounds_each(rows: Seq<RowView>, i: int, need: spec_fn(RowView) -> int)
    requires
        0 <= i < rows.len(),
    ensures
        need(rows[i]) <= widest(rows, need),
    decreases rows.len(),
{
    if i < rows.len() - 1 {
        widest_bounds_each(rows.drop_last(), i, need);
    }
}

pub proof fn action_width_bounds_each(
    rows: Seq<RowView>,
    i: int,
    btn_min: int,
    spacing: int,
    model: TextModel,
)
    requires
        0 <= i < rows.len(),
    ensures
        rows[i] matches RowView::LabeledButton { button, .. } ==> fitted_width(
            button,
            btn_min,
            spacing,
            model,
        ) <= action_width(rows, btn_min, spacing, model),
    decreases rows.len(),
{
    if i < rows.len() - 1 {
        action_width_bounds_each(rows.drop_last(), i, btn_min, spacing, model);
    }
}

/// Samples only ever widen: measuring them too never makes a column, a button
/// or the window narrower.
pub proof fn samples_only_widen(
    rows: Seq<RowView>,
    samples: Seq<RowView>,
    m: Metrics,
    model: TextModel,
)
    ensures
        action_need(rows, m, model) <= action_need(rows + samples, m, model),
        half_need(rows, m, model) <= half_need(rows + samples, m, model),
        singles_need(rows, m, model) <= singles_need(rows + samples, m, model),
        width_need(rows, m, model) <= width_need(rows + samples, m, model),
{
    let small = action_need(rows, m, model);
    let large = action_need(rows + samples, m, model);
    action_width_of_both(rows, samples, m.button_min_width as int, m.spacing as int, model);
    widest_of_both(rows, samples, |row: RowView| label_need(row, model));
    widest_of_both(rows, samples, |row: RowView| value_need(row, m, large, model));
    widest_of_both(rows, samples, |row: RowView| single_need(row, m, model));
    a_wider_button_never_narrows(rows, m, small, large, model);
}

proof fn a_wider_button_never_narrows(
    rows: Seq<RowView>,
    m: Metrics,
    small: int,
    large: int,
    model: TextModel,
)
    requires
        small <= large,
    ensures
        values_need(rows, m, small, model) <= values_need(rows, m, large, model),
    decreases rows.len(),
{
    if rows.len() > 0 {
        a_wider_button_never_narrows(rows.drop_last(), m, small, large, model);
    }
}

/// It does not matter which of the measured rows are drawn and which are
/// samples: the columns and the window need the same with the two lists
/// exchanged, and with both drawn.
pub proof fn rows_and_samples_weigh_the_same(
    rows: Seq<RowView>,
    samples: Seq<RowView>,
    m: Metrics,
    model: TextModel,
)
    ensures
        action_need(rows + samples, m, model) == action_need(samples + rows, m, model),
        half_need(rows + samples, m, model) == half_need(samples + rows, m, model),
        singles_need(rows + samples, m, model) == singles_need(samples + rows, m, model),
        width_need(rows + samples, m, model) == width_need(samples + rows, m, model),
        (rows + samples) + Seq::<RowView>::empty() == rows + samples,
        width_need(rows + samples, m, model) == m.padding * 2 + larger(
            half_need(rows + samples, m, model) * 2,
            singles_need(rows + samples, m, model),
        ),
{
    let (btn_min, spacing) = (m.button_min_width as int, m.spacing as int);
    let action = action_need(rows + samples, m, model);
    action_width_of_both(rows, samples, btn_min, spacing, model);
    action_width_of_both(samples, rows, btn_min, spacing, model);
    widest_of_both(rows, samples, |row: RowView| label_need(row, model));
    widest_of_both(samples, rows, |row: RowView| label_need(row, model));
    widest_of_both(rows, samples, |row: RowView| value_need(row, m, action, model));
    widest_of_both(samples, rows, |row: RowView| value_need(row, m, action, model));
    widest_of_both(rows, samples, |row: RowView| single_need(row, m, model));
    widest_of_both(samples, rows, |row: RowView| single_need(row, m, model));
    assert((rows + samples) + Seq::<RowView>::empty() =~= rows + samples);
}

/// One more row, drawn or a sample, never makes a column, a button or the
/// window narrower.
pub proof fn one_more_row_never_narrows(
    rows: Seq<RowView>,
    samples: Seq<RowView>,
    row: RowView,
    m: Metrics,
    model: TextModel,
)
    ensures
        ({
            let all = rows + samples;
            let drawn = rows.push(row) + samples;
            let sampled = rows + samples.push(row);
            &&& action_need(all, m, model) <= action_need(drawn, m, model)
            &&& half_need(all, m, model) <= half_need(drawn, m, model)
            &&& singles_need(all, m, model) <= singles_need(drawn, m, model)
            &&& width_need(all, m, model) <= width_need(drawn, m, model)
            &&& action_need(all, m, model) <= action_need(sampled, m, model)
            &&& half_need(all, m, model) <= half_need(sampled, m, model)
            &&& singles_need(all, m, model) <= singles_need(sampled, m, model)
            &&& width_need(all, m, model) <= width_need(sampled, m, model)
        }),
{
    samples_only_widen(rows + samples, seq![row], m, model);
    assert(rows + samples.push(row) =~= (rows + samples) + seq![row]);
    samples_only_widen(samples + rows, seq![row], m, model);
    assert(samples + rows.push(row) =~= (samples + rows) + seq![row]);
    rows_and_samples_weigh_the_same(rows, samples, m, model);
    rows_and_samples_weigh_the_same(rows.push(row), samples, m, model);
}

/// The height of each of some rows, a header being charged for the blank above
/// it when one stands anywhere before it.
pub open spec fn row_heights(
    rows: Seq<RowView>,
    m: Metrics,
    wrap_width: int,
    model: TextModel,
) -> Seq<int> {
    Seq::new(
        rows.len(),
        |i: int|
            rows[i].height(
                m,
                wrap_width,
                exists|j: int| 0 <= j < i && (#[trigger] rows[j]) is Header,
                model,
            ),
    )
}

/// The sum of some heights.
pub open spec fn sum_of_heights(heights: Seq<int>) -> int
    decreases heights.len(),
{
    if heights.len() == 0 {
        0
    } else {
        sum_of_heights(heights.drop_last()) + heights.last()
    }
}

/// Whether a header stands among some rows is whether one of them is one.
proof fn a_header_is_one_of_the_rows(rows: Seq<RowView>)
    ensures
        has_header(rows) == (exists|j: int| 0 <= j < rows.len() && (#[trigger] rows[j]) is Header),
    decreases rows.len(),
{
    if rows.len() > 0 {
        let front = rows.drop_last();
        a_header_is_one_of_the_rows(front);
        assert(rows.last() == rows[rows.len() - 1]);
        if has_header(front) {
            let j = choose|j: int| 0 <= j < front.len() && (#[trigger] front[j]) is Header;
            assert(rows[j] is Header);
        }
        if exists|j: int| 0 <= j < rows.len() && (#[trigger] rows[j]) is Header {
            let j = choose|j: int| 0 <= j < rows.len() && (#[trigger] rows[j]) is Header;
            if j < front.len() {
                assert(front[j] is Header);
            }
        }
    }
}

/// The height of a window is the padding at both ends, the slack under the last
/// row, and the heights of its rows one by one.
pub proof fn the_height_is_the_sum_of_the_rows(
    rows: Seq<RowView>,
    m: Metrics,
    wrap_width: int,
    model: TextModel,
)
    ensures
        height_need(rows, m, wrap_width, model) == m.padding * 2 + m.slack() + sum_of_heights(
            row_heights(rows, m, wrap_width, model),
        ),
    decreases rows.len(),
{
    if rows.len() > 0 {
        let front = rows.drop_last();
        let heights = row_heights(rows, m, wrap_width, model);
        let before = row_heights(front, m, wrap_width, model);
        the_height_is_the_sum_of_the_rows(front, m, wrap_width, model);
        assert forall|i: int| 0 <= i < front.len() implies heights.drop_last()[i] == before[i] by {
            let seen = exists|j: int| 0 <= j < i && (#[trigger] rows[j]) is Header;
            let also = exists|j: int| 0 <= j < i && (#[trigger] front[j]) is Header;
            if seen {
                let j = choose|j: int| 0 <= j < i && (#[trigger] rows[j]) is Header;
                assert(front[j] is Header);
            }
            if also {
                let j = choose|j: int| 0 <= j < i && (#[trigger] front[j]) is Header;
                assert(rows[j] is Header);
            }
        }
        assert(heights.drop_last() =~= before);
        a_header_is_one_of_the_rows(front);
        let last = rows.len() - 1;
        let seen = exists|j: int| 0 <= j < last && (#[trigger] rows[j]) is Header;
        if seen {
            let j = choose|j: int| 0 <= j < last && (#[trigger] rows[j]) is Header;
            assert(front[j] is Header);
        }
        if has_header(front) {
            let j = choose|j: int| 0 <= j < front.len() && (#[trigger] front[j]) is Header;
            assert(rows[j] is Header);
        }
        assert(heights.last() == rows.last().height(m, wrap_width, has_header(front), model));
    }
}

/// Rows that the samples already cover change nothing: when everything a row
/// asks for is asked for by some sample, the window is the size the samples
/// give it, whatever the rows show at the moment.
pub proof fn covered_rows_change_nothing(
    rows: Seq<RowView>,
    samples: Seq<RowView>,
    m: Metrics,
    model: TextModel,
)
    requires
        action_need(rows, m, model) <= action_need(samples, m, model),
        labels_need(rows, model) <= labels_need(samples, model),
        values_need(rows, m, action_need(samples, m, model), model) <= values_need(
            samples,
            m,
            action_need(samples, m, model),
            model,
        ),
        singles_need(rows, m, model) <= singles_need(samples, m, model),
    ensures
        action_need(rows + samples, m, model) == action_need(samples, m, model),
        half_need(rows + samples, m, model) == half_need(samples, m, model),
        width_need(rows + samples, m, model) == width_need(samples, m, model),
{
    let action = action_need(samples, m, model);
    action_width_of_both(rows, samples, m.button_min_width as int, m.spacing as int, model);
    widest_of_both(rows, samples, |row: RowView| label_need(row, model));
    widest_of_both(rows, samples, |row: RowView| value_need(row, m, action, model));
    widest_of_both(rows, samples, |row: RowView| single_need(row, m, model));
}

/// The pair of dialog buttons does not depend on which caption is on which
/// side, and both captions fit.
pub proof fn a_dialog_pair_is_symmetric(
    left: Seq<char>,
    right: Seq<char>,
    btn_min: int,
    spacing: int,
    model: TextModel,
)
    ensures
        pair_width(left, right, btn_min, spacing, model) == pair_width(
            right,
            left,
            btn_min,
            spacing,
            model,
        ),
        pair_width(left, right, btn_min, spacing, model) >= (model.line)(left, false) + spacing * 4,
        pair_width(left, right, btn_min, spacing, model) >= (model.line)(right, false) + spacing
            * 4,
        pair_width(left, right, btn_min, spacing, model) >= btn_min + spacing * 2,
{
}

/// A list that scrolls is charged exactly its bar more than the same list
/// without one.
pub proof fn a_scrolling_list_is_charged_its_bar(
    options: Seq<ItemView>,
    m: Metrics,
    action: int,
    model: TextModel,
    row: RowView,
)
    requires
        row matches RowView::Dropdown { options: shown, .. } && shown == options,
    ensures
        value_need(row, m, action, model) == widest_option(options, model) + m.spacing * 2
            + m.row_height + bar_width_for(options.len() as int, m.row_height as int),
        bar_width_for(options.len() as int, m.row_height as int) >= 0,
{
}

} // verus!
