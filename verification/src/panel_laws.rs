//! What holds of every panel, whatever the device reports.

use crate::focus::button_pair;
use crate::hid::{raised, Beeper, BeeperView, Reading};
use crate::lang::Locale;
use crate::layout::{has_header, stacked};
use crate::panel::{
    absent_rows, battery_rows, beeper_row, dash, device_rows, fault_rows, flag_row, input_rows,
    is_testing, output_rows, panel_rows, probe, reading_rows, self_test_row, skeleton_rows,
    status_rows, test_is_safe, title_rows, warning_rows, PanelView,
};
use crate::row::{HotspotId, RowView, HOT_BEEPER, HOT_SELFTEST, HOT_SETTINGS};
use crate::strings::Key;
use crate::text::TextModel;
use crate::theme::{Colors, Metrics};
use vstd::prelude::*;

verus! {

/// Whether every one of some rows has a property.
pub open spec fn all_rows(rows: Seq<RowView>, p: spec_fn(RowView) -> bool) -> bool {
    forall|i: int| 0 <= i < rows.len() ==> p(#[trigger] rows[i])
}

/// A property of the rows of two lists is a property of the rows of both.
pub proof fn all_of_both(a: Seq<RowView>, b: Seq<RowView>, p: spec_fn(RowView) -> bool)
    ensures
        all_rows(a + b, p) == (all_rows(a, p) && all_rows(b, p)),
{
    let both = a + b;
    if all_rows(both, p) {
        assert forall|i: int| 0 <= i < a.len() implies p(#[trigger] a[i]) by {
            assert(both[i] == a[i]);
        }
        assert forall|i: int| 0 <= i < b.len() implies p(#[trigger] b[i]) by {
            assert(both[a.len() + i] == b[i]);
        }
    }
}

/// A property of the rows of every part of the live panel is one of all its
/// rows.
pub proof fn all_of_the_reading(
    l: Locale,
    c: Colors,
    data: PanelView,
    r: Reading,
    p: spec_fn(RowView) -> bool,
)
    requires
        all_rows(input_rows(l, c, r), p),
        all_rows(output_rows(l, c, r), p),
        all_rows(battery_rows(l, c, r, data.probing), p),
        all_rows(status_rows(l, c, r, data.probing), p),
        all_rows(fault_rows(l, c, r), p),
        all_rows(device_rows(l, c, data, r), p),
    ensures
        all_rows(reading_rows(l, c, data, r), p),
{
    let a = input_rows(l, c, r);
    let b = output_rows(l, c, r);
    let d = battery_rows(l, c, r, data.probing);
    let e = status_rows(l, c, r, data.probing);
    let f = fault_rows(l, c, r);
    let g = device_rows(l, c, data, r);
    all_of_both(a, b, p);
    all_of_both(a + b, d, p);
    all_of_both(a + b + d, e, p);
    all_of_both(a + b + d + e, f, p);
    all_of_both(a + b + d + e + f, g, p);
}

/// A property of every notice is a property of the fault rows.
pub proof fn all_of_the_faults(l: Locale, c: Colors, r: Reading, p: spec_fn(RowView) -> bool)
    requires
        forall|row: RowView| row is Notice ==> #[trigger] p(row),
    ensures
        all_rows(fault_rows(l, c, r), p),
{
    let a = flag_row(r.below_capacity_limit, l.text(Key::FlagLowBattery), c.critical);
    let b = flag_row(r.runtime_limit_expired, l.text(Key::FlagRuntimeLimitExpired), c.critical);
    let d = flag_row(r.internal_failure, l.text(Key::FlagInternalFailure), c.critical);
    let e = flag_row(r.overload, l.text(Key::FlagOverload), c.critical);
    let f = flag_row(r.voltage_out_of_range, l.text(Key::FlagVoltageOutOfRange), c.critical);
    let g = flag_row(r.frequency_out_of_range, l.text(Key::FlagFrequencyOutOfRange), c.critical);
    let h = flag_row(r.boost, l.text(Key::FlagBoost), c.warning);
    all_of_both(a, b, p);
    all_of_both(a + b, d, p);
    all_of_both(a + b + d, e, p);
    all_of_both(a + b + d + e, f, p);
    all_of_both(a + b + d + e + f, g, p);
    all_of_both(a + b + d + e + f + g, h, p);
}

/// The parts of the device group, in order.
pub proof fn the_device_parts(l: Locale, c: Colors, data: PanelView, r: Reading)
    requires
        data.identity is Some,
    ensures
        device_rows(l, c, data, r).len() == 9,
        device_rows(l, c, data, r)[0] is Header,
        device_rows(l, c, data, r)[1] is Pair,
        device_rows(l, c, data, r)[2] is Pair,
        device_rows(l, c, data, r)[3] is Pair,
        device_rows(l, c, data, r)[4] is Pair,
        device_rows(l, c, data, r)[5] is Pair,
        device_rows(l, c, data, r)[6] == beeper_row(l, c, data.beeper, data.self_test_running),
        device_rows(l, c, data, r)[7] is Pair,
        device_rows(l, c, data, r)[8] == self_test_row(
            l,
            c,
            r,
            data.presence,
            data.probing,
            data.self_test_running,
        ),
{
}

/// The parts of the device group of a device whose identity is not known.
pub proof fn the_nameless_parts(l: Locale, c: Colors, data: PanelView, r: Reading)
    requires
        data.identity is None,
    ensures
        device_rows(l, c, data, r).len() == 4,
        device_rows(l, c, data, r)[0] is Header,
        device_rows(l, c, data, r)[1] is Pair,
        device_rows(l, c, data, r)[2] == beeper_row(l, c, data.beeper, data.self_test_running),
        device_rows(l, c, data, r)[3] == self_test_row(
            l,
            c,
            r,
            data.presence,
            data.probing,
            data.self_test_running,
        ),
{
}

/// Whether a row could stand below the panel's title: no title, no dialog
/// buttons, and no button but the buzzer's and the self-test's.
pub open spec fn is_ordinary(row: RowView) -> bool {
    &&& !(row is TitleButton)
    &&& !(row is Buttons)
    &&& row matches RowView::LabeledButton { id, .. } ==> id == HotspotId(HOT_BEEPER) || id
        == HotspotId(HOT_SELFTEST)
}

proof fn a_reading_is_ordinary(l: Locale, c: Colors, data: PanelView, r: Reading)
    ensures
        all_rows(reading_rows(l, c, data, r), |row: RowView| is_ordinary(row)),
{
    let p = |row: RowView| is_ordinary(row);
    all_of_the_faults(l, c, r, p);
    if data.identity is Some {
        the_device_parts(l, c, data, r);
    } else {
        the_nameless_parts(l, c, data, r);
    }
    all_of_the_reading(l, c, data, r, p);
}

/// Settings is the first thing in the panel and appears exactly once, and no
/// panel offers a row of dialog buttons.
pub proof fn settings_comes_first_and_once(l: Locale, c: Colors, data: PanelView)
    ensures
        panel_rows(l, c, data)[0] matches RowView::TitleButton { id, .. } && id == HotspotId(
            HOT_SETTINGS,
        ),
        forall|i: int| 0 < i < panel_rows(l, c, data).len() ==> is_ordinary(
            #[trigger] panel_rows(l, c, data)[i],
        ),
{
    let p = |row: RowView| is_ordinary(row);
    let rows = panel_rows(l, c, data);
    let warnings = warning_rows(data.warnings, c);
    let body = if data.connecting() {
        skeleton_rows(l, c)
    } else if data.presence is Absent {
        absent_rows(l, c)
    } else {
        reading_rows(l, c, data, data.reading->0)
    };
    if data.connecting() {
        a_reading_is_ordinary(l, c, probe(), Reading::unread());
    } else if !(data.presence is Absent) {
        a_reading_is_ordinary(l, c, data, data.reading->0);
    }
    assert(all_rows(body, p));
    assert forall|i: int| 0 < i < rows.len() implies is_ordinary(#[trigger] rows[i]) by {
        if i < 2 {
            assert(rows[i] == title_rows(l)[i]);
        } else if i < 2 + warnings.len() {
            assert(rows[i] == warnings[i - 2]);
        } else {
            assert(rows[i] == body[i - 2 - warnings.len()]);
            assert(p(body[i - 2 - warnings.len()]));
        }
    }
}

/// A window without a row of buttons has no pair to open on.
proof fn no_buttons_no_pair(rows: Seq<RowView>)
    requires
        forall|i: int| 0 <= i < rows.len() ==> !((#[trigger] rows[i]) is Buttons),
    ensures
        button_pair(rows) is None,
    decreases rows.len(),
{
    if rows.len() > 0 {
        assert(!(rows[0] is Buttons));
        let rest = rows.skip(1);
        assert forall|i: int| 0 <= i < rest.len() implies !((#[trigger] rest[i]) is Buttons) by {
            assert(rest[i] == rows[i + 1]);
        }
        no_buttons_no_pair(rest);
    }
}

/// The panel opens with no focus, and Enter in it has nothing to confirm.
pub proof fn the_panel_opens_unfocused(l: Locale, c: Colors, data: PanelView)
    ensures
        button_pair(panel_rows(l, c, data)) is None,
{
    let rows = panel_rows(l, c, data);
    settings_comes_first_and_once(l, c, data);
    assert forall|i: int| 0 <= i < rows.len() implies !((#[trigger] rows[i]) is Buttons) by {
        if i > 0 {
            assert(is_ordinary(rows[i]));
        }
    }
    no_buttons_no_pair(rows);
}

/// Every warning appears exactly once: in order and under the title, whatever
/// is known of the device. A panel that is not one of an absent device, which
/// has wrapped lines of its own, wraps nothing else.
pub proof fn every_warning_appears_once(l: Locale, c: Colors, data: PanelView)
    ensures
        forall|i: int|
            0 <= i < data.warnings.len() ==> #[trigger] panel_rows(l, c, data)[2 + i]
                == (RowView::Wrapped { text: data.warnings[i], color: c.warning }),
        !(data.presence is Absent) ==> forall|i: int|
            2 + data.warnings.len() <= i < panel_rows(l, c, data).len() ==> !((
            #[trigger] panel_rows(l, c, data)[i]) is Wrapped),
        data.presence is Absent ==> panel_rows(l, c, data).skip(
            2 + warning_rows(data.warnings, c).len() as int,
        ) == absent_rows(l, c),
        !(panel_rows(l, c, data)[0] is Wrapped),
        !(panel_rows(l, c, data)[1] is Wrapped),
{
    let p = |row: RowView| !(row is Wrapped);
    let rows = panel_rows(l, c, data);
    let warnings = warning_rows(data.warnings, c);
    let (over, r) = if data.connecting() {
        (probe(), Reading::unread())
    } else {
        (data, data.reading->0)
    };
    let body = reading_rows(l, c, over, r);
    all_of_the_faults(l, c, r, p);
    if over.identity is Some {
        the_device_parts(l, c, over, r);
    } else {
        the_nameless_parts(l, c, over, r);
    }
    all_of_the_reading(l, c, over, r, p);
    assert forall|i: int| 0 <= i < data.warnings.len() implies #[trigger] rows[2 + i]
        == (RowView::Wrapped { text: data.warnings[i], color: c.warning }) by {
        assert(rows[2 + i] == warnings[i]);
    }
    if data.presence is Absent {
        assert(rows.skip(2 + warnings.len() as int) =~= absent_rows(l, c));
    } else {
        assert forall|i: int| 2 + data.warnings.len() <= i < rows.len() implies !((
        #[trigger] rows[i]) is Wrapped) by {
            if i < 2 + warnings.len() {
                assert(rows[i] == warnings[i - 2]);
            } else {
                assert(rows[i] == body[i - 2 - warnings.len()]);
                assert(p(body[i - 2 - warnings.len()]));
            }
        }
    }
    assert(rows[0] == title_rows(l)[0]);
    assert(rows[1] == title_rows(l)[1]);
}

/// Whether a row states nothing: a value row holds a dash, and there is no
/// button beside a value.
pub open spec fn states_nothing(row: RowView) -> bool {
    &&& row matches RowView::Pair { value, .. } ==> value == dash()
    &&& !(row is LabeledButton)
    &&& !(row is Notice)
}

/// The startup panel states nothing the device has not said: every value on it
/// is a dash, and no control acts on a state that was not read.
pub proof fn the_startup_panel_states_nothing(l: Locale, c: Colors, data: PanelView)
    requires
        data.connecting(),
    ensures
        all_rows(panel_rows(l, c, data), |row: RowView| states_nothing(row)),
{
    let p = |row: RowView| states_nothing(row);
    let r = Reading::unread();
    assert(fault_rows(l, c, r) =~= seq![]);
    the_device_parts(l, c, probe(), r);
    all_of_the_reading(l, c, probe(), r, p);
    let warnings = warning_rows(data.warnings, c);
    all_of_both(title_rows(l), warnings, p);
    all_of_both(title_rows(l) + warnings, skeleton_rows(l, c), p);
}

/// How many of the seven flags are raised.
pub open spec fn raised_count(r: Reading) -> int {
    let one = |flag: Option<bool>| if raised(flag) { 1int } else { 0 };
    one(r.below_capacity_limit) + one(r.runtime_limit_expired) + one(r.internal_failure) + one(
        r.overload,
    ) + one(r.voltage_out_of_range) + one(r.frequency_out_of_range) + one(r.boost)
}

/// Every raised flag is one row.
proof fn a_flag_is_one_row(l: Locale, c: Colors, r: Reading)
    ensures
        fault_rows(l, c, r).len() == raised_count(r),
{
}

proof fn the_group_lengths(l: Locale, c: Colors, r: Reading, probing: bool)
    ensures
        title_rows(l).len() == 2,
        input_rows(l, c, r).len() == 4,
        output_rows(l, c, r).len() == 5,
        battery_rows(l, c, r, probing).len() == 9,
        status_rows(l, c, r, probing).len() == 2,
{
}

/// A field that fails to read never takes its row with it: the panel's length
/// is its fixed rows, the warnings, the raised flags and the identity block,
/// and nothing else.
pub proof fn an_unread_field_keeps_its_row(l: Locale, c: Colors, data: PanelView)
    requires
        data.presence is Open,
        data.reading is Some,
    ensures
        panel_rows(l, c, data).len() == 22 + warning_rows(data.warnings, c).len() + raised_count(
            data.reading->0,
        ) + (if data.identity is Some { 9int } else { 4 }),
{
    let r = data.reading->0;
    if data.identity is Some {
        the_device_parts(l, c, data, r);
    } else {
        the_nameless_parts(l, c, data, r);
    }
    a_flag_is_one_row(l, c, r);
    the_group_lengths(l, c, r, data.probing);
}

/// The self-test is the last row of a live panel. Once the device is no longer
/// probed the row has a button, live exactly when every condition for a test is
/// confirmed and none is under way.
pub proof fn the_self_test_is_last(l: Locale, c: Colors, data: PanelView)
    requires
        data.presence is Open,
        data.reading is Some,
    ensures
        panel_rows(l, c, data).last() == self_test_row(
            l,
            c,
            data.reading->0,
            data.presence,
            data.probing,
            data.self_test_running,
        ),
        data.probing ==> panel_rows(l, c, data).last() is Pair,
        !data.probing ==> (panel_rows(l, c, data).last() matches RowView::LabeledButton {
            id,
            enabled,
            ..
        } && id == HotspotId(HOT_SELFTEST) && enabled == (test_is_safe(
            data.reading->0,
            data.presence,
        ) && !is_testing(data.reading->0, data.self_test_running))),
{
    let r = data.reading->0;
    if data.identity is Some {
        the_device_parts(l, c, data, r);
    } else {
        the_nameless_parts(l, c, data, r);
    }
    let rows = panel_rows(l, c, data);
    let device = device_rows(l, c, data, r);
    assert(rows.last() == device.last());
}

/// The buzzer and the self-test never stand on adjacent lines of a device that
/// has an identity.
pub proof fn the_two_buttons_are_apart(l: Locale, c: Colors, data: PanelView)
    requires
        data.presence is Open,
        data.reading is Some,
        data.identity is Some,
    ensures
        ({
            let rows = panel_rows(l, c, data);
            let n = rows.len();
            &&& rows[n - 3] == beeper_row(l, c, data.beeper, data.self_test_running)
            &&& rows[n - 2] is Pair
            &&& rows[n - 1] == self_test_row(
                l,
                c,
                data.reading->0,
                data.presence,
                data.probing,
                data.self_test_running,
            )
        }),
{
    let r = data.reading->0;
    the_device_parts(l, c, data, r);
    let rows = panel_rows(l, c, data);
    let device = device_rows(l, c, data, r);
    let n = rows.len();
    assert(rows[n - 3] == device[6]);
    assert(rows[n - 2] == device[7]);
    assert(rows[n - 1] == device[8]);
}

/// An observation that failed greys the buzzer's button and keeps its caption:
/// the row of a mode that was and the row of one that is differ in the value,
/// which is a dash, and in being live. Before anything was observed there is no
/// button.
pub proof fn a_stale_mode_keeps_its_caption(
    l: Locale,
    c: Colors,
    mode: Beeper,
    action: Key,
    running: bool,
)
    requires
        mode.action == Some(action),
    ensures
        beeper_row(l, c, BeeperView::Current(mode), running) == (RowView::LabeledButton {
            label: l.text(Key::PanelBeeper),
            value: l.text(mode.name),
            color: c.text_primary,
            button: l.text(action),
            id: HotspotId(HOT_BEEPER),
            enabled: !running,
        }),
        beeper_row(l, c, BeeperView::Stale(mode), running) == (RowView::LabeledButton {
            label: l.text(Key::PanelBeeper),
            value: dash(),
            color: c.text_primary,
            button: l.text(action),
            id: HotspotId(HOT_BEEPER),
            enabled: false,
        }),
        beeper_row(l, c, BeeperView::Unknown, running) == (RowView::Pair {
            label: l.text(Key::PanelBeeper),
            value: dash(),
            color: c.text_secondary,
        }),
{
}

/// A healthy device shows no flag at all, and a device with a raised fault
/// shows a line in the critical colour: the panel and the tray icon never
/// disagree about severity.
pub proof fn faults_show_exactly_when_critical(l: Locale, c: Colors, r: Reading)
    requires
        c.critical != c.warning,
    ensures
        r.faulty() == (exists|i: int|
            0 <= i < fault_rows(l, c, r).len() && ((#[trigger] fault_rows(l, c, r)[i]) matches RowView::Notice {
                color,
                ..
            } && color == c.critical)),
        !r.faulty() && !raised(r.boost) ==> fault_rows(l, c, r).len() == 0,
{
    let rows = fault_rows(l, c, r);
    let calm = |row: RowView| row matches RowView::Notice { color, .. } ==> color != c.critical;
    let a = flag_row(r.below_capacity_limit, l.text(Key::FlagLowBattery), c.critical);
    let b = flag_row(r.runtime_limit_expired, l.text(Key::FlagRuntimeLimitExpired), c.critical);
    let d = flag_row(r.internal_failure, l.text(Key::FlagInternalFailure), c.critical);
    let e = flag_row(r.overload, l.text(Key::FlagOverload), c.critical);
    let f = flag_row(r.voltage_out_of_range, l.text(Key::FlagVoltageOutOfRange), c.critical);
    let g = flag_row(r.frequency_out_of_range, l.text(Key::FlagFrequencyOutOfRange), c.critical);
    let h = flag_row(r.boost, l.text(Key::FlagBoost), c.warning);
    all_of_both(a, b, calm);
    all_of_both(a + b, d, calm);
    all_of_both(a + b + d, e, calm);
    all_of_both(a + b + d + e, f, calm);
    all_of_both(a + b + d + e + f, g, calm);
    all_of_both(a + b + d + e + f + g, h, calm);
    assert(raised(r.below_capacity_limit) ==> !calm(a[0]));
    assert(raised(r.runtime_limit_expired) ==> !calm(b[0]));
    assert(raised(r.internal_failure) ==> !calm(d[0]));
    assert(raised(r.overload) ==> !calm(e[0]));
    assert(raised(r.voltage_out_of_range) ==> !calm(f[0]));
    assert(raised(r.frequency_out_of_range) ==> !calm(g[0]));
    if r.faulty() {
        assert(!all_rows(rows, calm));
        let i = choose|i: int| 0 <= i < rows.len() && !calm(#[trigger] rows[i]);
        assert(rows[i] is Notice);
    } else {
        assert(all_rows(rows, calm));
        assert forall|i: int| 0 <= i < rows.len() implies !((#[trigger] rows[i]) matches RowView::Notice {
            color,
            ..
        } && color == c.critical) by {
            assert(calm(rows[i]));
        }
    }
}

/// Whether two rows are as tall as each other in every theme and every font.
pub open spec fn equally_tall(a: RowView, b: RowView) -> bool {
    ||| a == b
    ||| (a is Header && b is Header)
    ||| ((a is Pair || a is LabeledButton) && (b is Pair || b is LabeledButton))
}

/// Whether two lists of rows are as tall as each other row by row.
pub open spec fn equally_tall_lists(a: Seq<RowView>, b: Seq<RowView>) -> bool {
    &&& a.len() == b.len()
    &&& forall|i: int| 0 <= i < a.len() ==> equally_tall(#[trigger] a[i], b[i])
}

/// Lists that are as tall row by row are as tall.
pub proof fn equal_rows_stack_alike(
    a: Seq<RowView>,
    b: Seq<RowView>,
    m: Metrics,
    wrap_width: int,
    model: TextModel,
)
    requires
        equally_tall_lists(a, b),
    ensures
        has_header(a) == has_header(b),
        stacked(a, m, wrap_width, model) == stacked(b, m, wrap_width, model),
    decreases a.len(),
{
    if a.len() > 0 {
        let i = a.len() - 1;
        assert(equally_tall(a[i], b[i]));
        assert forall|j: int| 0 <= j < i implies equally_tall(
            #[trigger] a.drop_last()[j],
            b.drop_last()[j],
        ) by {
            assert(equally_tall(a[j], b[j]));
        }
        equal_rows_stack_alike(a.drop_last(), b.drop_last(), m, wrap_width, model);
    }
}

proof fn tall_lists_join(a: Seq<RowView>, b: Seq<RowView>, d: Seq<RowView>, e: Seq<RowView>)
    requires
        equally_tall_lists(a, b),
        equally_tall_lists(d, e),
    ensures
        equally_tall_lists(a + d, b + e),
{
    assert forall|i: int| 0 <= i < (a + d).len() implies equally_tall(
        #[trigger] (a + d)[i],
        (b + e)[i],
    ) by {
        if i < a.len() {
            assert(equally_tall(a[i], b[i]));
        } else {
            assert(equally_tall(d[i - a.len()], e[i - a.len()]));
        }
    }
}

/// The window does not resize when the first reading lands: the startup panel
/// and the live panel of a device with an identity and no raised flag are
/// equally tall, in every theme, at every width and in every font.
pub proof fn the_skeleton_is_as_tall_as_the_panel(
    l: Locale,
    c: Colors,
    startup: PanelView,
    live: PanelView,
    m: Metrics,
    wrap_width: int,
    model: TextModel,
)
    requires
        startup.connecting(),
        live.presence is Open,
        live.reading is Some,
        live.identity is Some,
        raised_count(live.reading->0) == 0,
        live.warnings == startup.warnings,
    ensures
        panel_rows(l, c, startup).len() == panel_rows(l, c, live).len(),
        stacked(panel_rows(l, c, startup), m, wrap_width, model) == stacked(
            panel_rows(l, c, live),
            m,
            wrap_width,
            model,
        ),
{
    let r = live.reading->0;
    let u = Reading::unread();
    the_device_parts(l, c, probe(), u);
    the_device_parts(l, c, live, r);
    assert(fault_rows(l, c, u) =~= seq![]);
    assert(fault_rows(l, c, r) =~= seq![]);
    let (a1, a2) = (input_rows(l, c, u), input_rows(l, c, r));
    let (b1, b2) = (output_rows(l, c, u), output_rows(l, c, r));
    let (d1, d2) = (battery_rows(l, c, u, true), battery_rows(l, c, r, live.probing));
    let (e1, e2) = (status_rows(l, c, u, true), status_rows(l, c, r, live.probing));
    let (f1, f2) = (fault_rows(l, c, u), fault_rows(l, c, r));
    let (g1, g2) = (device_rows(l, c, probe(), u), device_rows(l, c, live, r));
    tall_lists_join(a1, a2, b1, b2);
    tall_lists_join(a1 + b1, a2 + b2, d1, d2);
    tall_lists_join(a1 + b1 + d1, a2 + b2 + d2, e1, e2);
    tall_lists_join(a1 + b1 + d1 + e1, a2 + b2 + d2 + e2, f1, f2);
    tall_lists_join(a1 + b1 + d1 + e1 + f1, a2 + b2 + d2 + e2 + f2, g1, g2);
    let head = title_rows(l) + warning_rows(live.warnings, c);
    tall_lists_join(head, head, reading_rows(l, c, probe(), u), reading_rows(l, c, live, r));
    equal_rows_stack_alike(
        panel_rows(l, c, startup),
        panel_rows(l, c, live),
        m,
        wrap_width,
        model,
    );
}

} // verus!
