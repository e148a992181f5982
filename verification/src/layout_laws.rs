//! What a measured window has room for: every text on it, whatever stands
//! beside that text, and not a pixel more than the widest of them asks.

use crate::dpi::scaled_96;
use crate::layout::{
    action_need, action_width_bounds_each, fitted_width, half_in, half_need, height_need,
    label_need, measurable, measured, origin_in, pair_width, remembered, single_need, singles_need,
    slot_of, stored, text_width_in, touched, value_need, widest, widest_bounds_each, widest_option,
    width_need, Measured, PanelContent, SizeKeyView, CACHE_SLOTS,
};
use crate::row::{ItemView, RowView};
use crate::scrollbar::bar_width;
use crate::text::{Script, TextModel};
use crate::theme::{Metrics, Theme};
use vstd::prelude::*;

verus! {

/// The measured client width, less the padding, holds all the text of every row
/// that spans the window and what stands beside that text: a heading in bold; a
/// box, indented by its depth, with its gap and its label; a title in bold, two
/// gaps and a button that holds its caption; and two equal buttons, each wide
/// enough for either caption, with a gap between them.
pub proof fn a_spanning_row_fits_the_window(
    rows: Seq<RowView>,
    i: int,
    m: Metrics,
    model: TextModel,
)
    requires
        0 <= i < rows.len(),
    ensures
        ({
            let client = width_need(rows, m, model) - 2 * m.padding;
            let gap = m.spacing as int;
            match rows[i] {
                RowView::Header(text) => client >= (model.line)(text, true),
                RowView::Checkbox { label, depth, .. } => client >= m.indent * depth + m.row_height
                    + gap + (model.line)(label, false),
                RowView::TitleButton { title, button, .. } => {
                    &&& client >= (model.line)(title, true) + 2 * gap + m.button_min_width
                    &&& client >= (model.line)(title, true) + 2 * gap + (model.line)(button, false)
                        + 4 * gap
                },
                RowView::Buttons { left, right, .. } => {
                    &&& client >= 2 * ((model.line)(left, false) + 4 * gap) + gap
                    &&& client >= 2 * ((model.line)(right, false) + 4 * gap) + gap
                    &&& client >= 2 * (m.button_min_width + 2 * gap) + gap
                    &&& client >= 2 * m.button_min_width + gap
                },
                _ => true,
            }
        }),
{
    widest_bounds_each(rows, i, |row: RowView| single_need(row, m, model));
}

/// Half of the measured client width, less the padding, holds every label with
/// the gap between the columns, and every value with what stands beside it: an
/// edited value with two gaps on each side, a list's widest option with a gap
/// on each side, its arrow and the bar of a list longer than it shows, and a
/// button's value with a gap and the widest button of the column.
pub proof fn a_split_row_fits_its_columns(
    rows: Seq<RowView>,
    i: int,
    j: int,
    m: Metrics,
    model: TextModel,
)
    requires
        0 <= i < rows.len(),
        0 <= j < rows.len(),
    ensures
        ({
            let client = width_need(rows, m, model) - 2 * m.padding;
            let gap = m.spacing as int;
            match rows[i] {
                RowView::Pair { label, value, .. } => {
                    &&& client >= 2 * ((model.line)(label, false) + m.column_gap)
                    &&& client >= 2 * (model.line)(value, false)
                },
                RowView::Field { label, value, .. } => {
                    &&& client >= 2 * ((model.line)(label, false) + m.column_gap)
                    &&& client >= 2 * ((model.line)(value, false) + 4 * gap)
                },
                RowView::Dropdown { label, options, .. } => {
                    &&& client >= 2 * ((model.line)(label, false) + m.column_gap)
                    &&& 0 <= j < options.len() ==> client >= 2 * ((model.option)(options[j]) + 2
                        * gap + m.row_height)
                    &&& 0 <= j < options.len() && options.len() > 12 ==> client >= 2 * ((
                    model.option)(options[j]) + 2 * gap + m.row_height + bar_width(
                        m.row_height as int,
                    ))
                },
                RowView::LabeledButton { label, value, .. } => {
                    &&& client >= 2 * ((model.line)(label, false) + m.column_gap)
                    &&& client >= 2 * ((model.line)(value, false) + gap + m.button_min_width)
                    &&& rows[j] matches RowView::LabeledButton { button, .. } ==> client >= 2 * ((
                    model.line)(value, false) + gap + (model.line)(button, false) + 4 * gap)
                },
                _ => true,
            }
        }),
{
    let action = action_need(rows, m, model);
    widest_bounds_each(rows, i, |row: RowView| label_need(row, model));
    widest_bounds_each(rows, i, |row: RowView| value_need(row, m, action, model));
    action_width_bounds_each(rows, j, m.button_min_width as int, m.spacing as int, model);
    the_shared_button_is_the_least(rows, m, action, model);
    match rows[i] {
        RowView::Dropdown { options, .. } => {
            if 0 <= j < options.len() {
                no_option_is_wider(options, j, model);
            }
        },
        _ => {},
    }
}

/// Whether a label fits into `room`.
pub open spec fn label_fits(row: RowView, room: int, model: TextModel) -> bool {
    match row {
        RowView::Pair { label, .. } => (model.line)(label, false) <= room,
        RowView::Dropdown { label, .. } => (model.line)(label, false) <= room,
        RowView::Field { label, .. } => (model.line)(label, false) <= room,
        RowView::LabeledButton { label, .. } => (model.line)(label, false) <= room,
        _ => true,
    }
}

/// Whether a value and what stands beside it fit into `room`, its button being
/// `button` wide.
pub open spec fn value_fits(
    row: RowView,
    room: int,
    m: Metrics,
    button: int,
    model: TextModel,
) -> bool {
    match row {
        RowView::Pair { value, .. } => (model.line)(value, false) <= room,
        RowView::Field { value, .. } => (model.line)(value, false) + 4 * m.spacing <= room,
        RowView::LabeledButton { value, .. } => (model.line)(value, false) + m.spacing + button
            <= room,
        RowView::Dropdown { options, .. } => {
            let beside = 2 * m.spacing + m.row_height + if options.len() > 12 {
                bar_width(m.row_height as int)
            } else {
                0
            };
            &&& options.len() == 0 ==> beside <= room
            &&& forall|k: int|
                0 <= k < options.len() ==> (model.option)(#[trigger] options[k]) + beside <= room
        },
        _ => true,
    }
}

/// Whether a button `button` wide holds a caption, two gaps on each side of it.
pub open spec fn caption_fits(caption: Seq<char>, button: int, m: Metrics, model: TextModel) -> bool {
    m.button_min_width <= button && (model.line)(caption, false) + 4 * m.spacing <= button
}

/// Whether a row that spans the window fits into `room`: its text, and the
/// smallest buttons that hold their captions.
pub open spec fn single_fits(row: RowView, room: int, m: Metrics, model: TextModel) -> bool {
    match row {
        RowView::Header(text) => (model.line)(text, true) <= room,
        RowView::Checkbox { label, depth, .. } => m.indent * depth + m.row_height + m.spacing + (
        model.line)(label, false) <= room,
        RowView::TitleButton { title, button, .. } => exists|w: int|
            #[trigger] caption_fits(button, w, m, model) && (model.line)(title, true) + 2
                * m.spacing + w <= room,
        RowView::Buttons { left, right, .. } => exists|w: int|
            #[trigger] caption_fits(left, w, m, model) && caption_fits(right, w, m, model)
                && m.button_min_width + 2 * m.spacing <= w && 2 * w + m.spacing <= room,
        _ => true,
    }
}

/// The shared button width is the least that holds the caption of every button
/// of the value column, and no less than the smallest button.
pub proof fn the_shared_button_is_the_least(
    rows: Seq<RowView>,
    m: Metrics,
    button: int,
    model: TextModel,
)
    ensures
        action_need(rows, m, model) <= button <==> {
            &&& m.button_min_width <= button
            &&& forall|i: int|
                0 <= i < rows.len() ==> (#[trigger] rows[i] matches RowView::LabeledButton {
                    button: caption,
                    ..
                } ==> (model.line)(caption, false) + 4 * m.spacing <= button)
        },
    decreases rows.len(),
{
    if rows.len() > 0 {
        let front = rows.drop_last();
        the_shared_button_is_the_least(front, m, button, model);
        assert(forall|i: int| 0 <= i < front.len() ==> front[i] == rows[i]);
        assert(rows.last() == rows[rows.len() - 1]);
    }
}

proof fn no_option_is_wider(options: Seq<ItemView>, k: int, model: TextModel)
    requires
        0 <= k < options.len(),
    ensures
        (model.option)(options[k]) <= widest_option(options, model),
    decreases options.len(),
{
    if options.len() > 1 && k < options.len() - 1 {
        no_option_is_wider(options.drop_last(), k, model);
    }
}

proof fn some_option_is_as_wide(options: Seq<ItemView>, model: TextModel) -> (k: int)
    requires
        options.len() > 0,
    ensures
        0 <= k < options.len(),
        (model.option)(options[k]) == widest_option(options, model),
    decreases options.len(),
{
    if options.len() == 1 || (model.option)(options.last()) >= widest_option(
        options.drop_last(),
        model,
    ) {
        options.len() - 1
    } else {
        some_option_is_as_wide(options.drop_last(), model)
    }
}

proof fn a_label_need_is_exact(row: RowView, room: int, model: TextModel)
    requires
        room >= 0,
    ensures
        label_need(row, model) <= room <==> label_fits(row, room, model),
{
}

proof fn a_value_need_is_exact(row: RowView, room: int, m: Metrics, button: int, model: TextModel)
    requires
        room >= 0,
    ensures
        value_need(row, m, button, model) <= room <==> value_fits(row, room, m, button, model),
{
    match row {
        RowView::Dropdown { options, .. } => {
            if options.len() > 0 {
                let k = some_option_is_as_wide(options, model);
                assert forall|j: int| 0 <= j < options.len() implies (model.option)(
                    #[trigger] options[j],
                ) <= widest_option(options, model) by {
                    no_option_is_wider(options, j, model);
                }
                assert((model.option)(options[k]) == widest_option(options, model));
            }
        },
        _ => {},
    }
}

proof fn a_single_need_is_exact(row: RowView, room: int, m: Metrics, model: TextModel)
    requires
        room >= 0,
    ensures
        single_need(row, m, model) <= room <==> single_fits(row, room, m, model),
{
    let (btn_min, gap) = (m.button_min_width as int, m.spacing as int);
    match row {
        RowView::TitleButton { title, button, .. } => {
            let w = fitted_width(button, btn_min, gap, model);
            assert(caption_fits(button, w, m, model));
        },
        RowView::Buttons { left, right, .. } => {
            let w = pair_width(left, right, btn_min, gap, model);
            assert(caption_fits(left, w, m, model));
            assert(caption_fits(right, w, m, model));
        },
        _ => {},
    }
}

proof fn the_widest_is_the_least(rows: Seq<RowView>, need: spec_fn(RowView) -> int, room: int)
    ensures
        widest(rows, need) <= room <==> room >= 0 && forall|i: int|
            0 <= i < rows.len() ==> need(#[trigger] rows[i]) <= room,
    decreases rows.len(),
{
    if rows.len() > 0 {
        let front = rows.drop_last();
        the_widest_is_the_least(front, need, room);
        assert(forall|i: int| 0 <= i < front.len() ==> front[i] == rows[i]);
        assert(rows.last() == rows[rows.len() - 1]);
    }
}

/// A column is the least that holds every label with the gap after it and every
/// value with what stands beside it; it is never narrower than the gap, nor
/// negative.
pub proof fn a_column_is_the_least_that_holds_its_texts(
    rows: Seq<RowView>,
    room: int,
    m: Metrics,
    model: TextModel,
)
    ensures
        half_need(rows, m, model) <= room <==> {
            &&& room >= 0
            &&& room >= m.column_gap
            &&& forall|i: int|
                0 <= i < rows.len() ==> label_fits(#[trigger] rows[i], room - m.column_gap, model)
            &&& forall|i: int|
                0 <= i < rows.len() ==> value_fits(
                    #[trigger] rows[i],
                    room,
                    m,
                    action_need(rows, m, model),
                    model,
                )
        },
{
    let action = action_need(rows, m, model);
    let label = |row: RowView| label_need(row, model);
    let value = |row: RowView| value_need(row, m, action, model);
    the_widest_is_the_least(rows, label, room - m.column_gap);
    the_widest_is_the_least(rows, value, room);
    if room >= 0 && room >= m.column_gap {
        assert forall|i: int| 0 <= i < rows.len() implies (label(#[trigger] rows[i]) <= room
            - m.column_gap <==> label_fits(rows[i], room - m.column_gap, model)) by {
            a_label_need_is_exact(rows[i], room - m.column_gap, model);
        }
        assert forall|i: int| 0 <= i < rows.len() implies (value(#[trigger] rows[i]) <= room
            <==> value_fits(rows[i], room, m, action, model)) by {
            a_value_need_is_exact(rows[i], room, m, action, model);
        }
    }
}

/// The floor that the spanning rows set is the least that holds each of them.
pub proof fn the_floor_is_the_least_that_holds_the_spanning_rows(
    rows: Seq<RowView>,
    room: int,
    m: Metrics,
    model: TextModel,
)
    ensures
        singles_need(rows, m, model) <= room <==> {
            &&& room >= 0
            &&& forall|i: int|
                0 <= i < rows.len() ==> single_fits(#[trigger] rows[i], room, m, model)
        },
{
    let single = |row: RowView| single_need(row, m, model);
    the_widest_is_the_least(rows, single, room);
    if room >= 0 {
        assert forall|i: int| 0 <= i < rows.len() implies (single(#[trigger] rows[i]) <= room
            <==> single_fits(rows[i], room, m, model)) by {
            a_single_need_is_exact(rows[i], room, m, model);
        }
    }
}

/// The client width is the least that holds, between its two paddings, two
/// columns side by side and every row that spans the window.
pub proof fn the_window_is_the_least_that_holds_its_rows(
    rows: Seq<RowView>,
    width: int,
    m: Metrics,
    model: TextModel,
)
    ensures
        width_need(rows, m, model) <= width <==> {
            &&& 2 * half_need(rows, m, model) <= width - 2 * m.padding
            &&& singles_need(rows, m, model) <= width - 2 * m.padding
        },
{
}

/// What a measurement gives: a width that holds the rows and the samples and is
/// no less than the minimum, and no more than the larger of the two; the height
/// of the rows alone, their wrapped text flowing between the two margins; and
/// the columns it came out of.
pub proof fn a_measurement_is_of_the_rows_and_samples(
    rows: Seq<RowView>,
    samples: Seq<RowView>,
    m: Metrics,
    min_width: i32,
    model: TextModel,
)
    requires
        measurable(rows, samples, m, min_width as int, model),
    ensures
        ({
            let r = measured(rows, samples, m, min_width as int, model);
            &&& r.width >= min_width
            &&& r.width >= width_need(rows + samples, m, model)
            &&& r.width == min_width || r.width == width_need(rows + samples, m, model)
            &&& r.columns.half == half_need(rows + samples, m, model)
            &&& r.columns.wide_single == singles_need(rows + samples, m, model)
            &&& r.columns.action_button == action_need(rows + samples, m, model)
            &&& m.padding >= 0 && r.width > 2 * m.padding ==> r.height == height_need(
                rows,
                m,
                r.width - 2 * m.padding,
                model,
            )
        }),
{
    let r = measured(rows, samples, m, min_width as int, model);
    text_flows_between_the_margins(
        r.width as int,
        half_need(rows + samples, m, model),
        m,
    );
}

/// Text that spans a window with room for its columns flows from one padding to
/// the other, whatever the columns come to; it never has less than a pixel.
pub proof fn text_flows_between_the_margins(width: int, half: int, m: Metrics)
    ensures
        2 * half <= width - 2 * m.padding && width > 2 * m.padding ==> text_width_in(width, half, m)
            == width - 2 * m.padding,
        text_width_in(width, half, m) >= 1,
{
}

/// The columns start at the padding, whatever the window. One narrower than
/// they are clips them on the right: they keep what they need. One wide enough
/// splits what is between its paddings in half.
pub proof fn columns_never_shrink(content: int, need: int, m: Metrics)
    ensures
        origin_in(content, need, m) == m.padding,
        half_in(content, need, m) >= need,
        2 * need >= content - 2 * m.padding && need >= 0 ==> half_in(content, need, m) == need,
        2 * need <= content - 2 * m.padding && need >= 0 ==> 0 <= content - 2 * m.padding - 2
            * half_in(content, need, m) <= 1,
{
}

/// The cache is searched from the front for exactly the key asked for, and
/// answers none only when no slot holds it.
pub proof fn a_search_finds_the_first_slot(slots: Seq<(SizeKeyView, Measured)>, key: SizeKeyView)
    ensures
        match slot_of(slots, key) {
            Some(i) => {
                &&& 0 <= i < slots.len()
                &&& slots[i].0 == key
                &&& forall|j: int| 0 <= j < i ==> (#[trigger] slots[j]).0 != key
            },
            None => forall|j: int| 0 <= j < slots.len() ==> (#[trigger] slots[j]).0 != key,
        },
    decreases slots.len(),
{
    if slots.len() > 0 {
        let rest = slots.skip(1);
        a_search_finds_the_first_slot(rest, key);
        assert(forall|j: int| 0 < j < slots.len() ==> slots[j] == rest[j - 1]);
    }
}

/// A slot that is used moves to the front and the ones before it move back by
/// one, so that the slots stand in the order they were last used.
pub proof fn a_used_slot_moves_to_the_front(slots: Seq<(SizeKeyView, Measured)>, at: int, k: int)
    requires
        0 <= at < slots.len(),
        0 <= k < slots.len(),
    ensures
        touched(slots, at).len() == slots.len(),
        touched(slots, at)[0] == slots[at],
        k < at ==> touched(slots, at)[k + 1] == slots[k],
        k > at ==> touched(slots, at)[k] == slots[k],
{
}

/// A new entry goes to the front and the others move back by one; only a full
/// cache of four loses one, the one that was used longest ago.
pub proof fn a_full_cache_drops_the_last_slot(
    slots: Seq<(SizeKeyView, Measured)>,
    key: SizeKeyView,
    value: Measured,
    k: int,
)
    requires
        0 <= k < slots.len(),
        slots.len() <= CACHE_SLOTS,
    ensures
        CACHE_SLOTS == 4,
        stored(slots, key, value)[0] == (key, value),
        slots.len() < 4 ==> stored(slots, key, value).len() == slots.len() + 1,
        slots.len() == 4 ==> stored(slots, key, value).len() == 4,
        k + 1 < 4 ==> stored(slots, key, value)[k + 1] == slots[k],
{
}

/// A window is measured on the monitor it stands on: its minimum width is the
/// authored one at that monitor's scale, to the nearest pixel.
pub proof fn a_window_is_no_narrower_than_authored(
    rows: Seq<RowView>,
    samples: Seq<RowView>,
    theme: Theme,
    min_width: i32,
    script: Script,
    model: TextModel,
)
    requires
        min_width >= 0,
        measurable(
            rows,
            samples,
            theme.metrics.at(script.dpi.0 as int),
            scaled_96(min_width as int, script.dpi.0 as int),
            model,
        ),
        scaled_96(min_width as int, script.dpi.0 as int) <= i32::MAX,
    ensures
        ({
            let size = PanelContent::fresh(rows, samples, theme, min_width as int, script, model);
            96 * size.width >= min_width * script.dpi.0 - 48
        }),
{
    let dpi = script.dpi.0 as int;
    assert(min_width * dpi >= 0) by (nonlinear_arith)
        requires
            min_width >= 0,
            dpi >= 0,
    ;
    a_measurement_is_of_the_rows_and_samples(
        rows,
        samples,
        theme.metrics.at(dpi),
        scaled_96(min_width as int, dpi) as i32,
        model,
    );
}

/// A window has a size exactly when every number that comes up in measuring it
/// is one a pixel count can hold.
pub proof fn a_window_has_a_size_when_its_numbers_are_pixels(
    rows: Seq<RowView>,
    samples: Seq<RowView>,
    m: Metrics,
    min_width: i32,
    model: TextModel,
)
    ensures
        ({
            let all = rows + samples;
            let held = |x: int| -0x8000_0000 <= x <= 0x7FFF_FFFF;
            let half = half_need(all, m, model);
            let needed = width_need(all, m, model);
            let width = if needed >= min_width {
                needed
            } else {
                min_width as int
            };
            let wrap = text_width_in(width, half, m);
            measurable(rows, samples, m, min_width as int, model) <==> held(half) && held(
                singles_need(all, m, model),
            ) && held(action_need(all, m, model)) && held(needed) && held(half_in(width, half, m))
                && held(wrap) && held(height_need(rows, m, wrap, model))
        }),
{
}

/// A size that was asked for is at the front of the cache afterwards, under its
/// key: the one that was kept where there was one, and a new measurement where
/// there was none.
pub proof fn an_answer_is_kept_in_front(
    before: Seq<(SizeKeyView, Measured)>,
    after: Seq<(SizeKeyView, Measured)>,
    key: SizeKeyView,
    size: Measured,
    fresh: Measured,
)
    requires
        remembered(before, after, key, size, fresh),
    ensures
        after.len() > 0,
        after[0] == (key, size),
        slot_of(after, key) == Some(0int),
        slot_of(before, key) matches Some(i) ==> size == before[i].1 && after.len()
            == before.len(),
        slot_of(before, key) is None ==> size == fresh,
{
    a_search_finds_the_first_slot(before, key);
}

} // verus!
