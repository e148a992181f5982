//! What each row of the panel shows of what the device reports.
//!
//! Every law here speaks of a row by its place on the panel: below the title,
//! which takes two rows, and the warnings, which take one each and one more for
//! the gap under them.

use crate::color::Color;
use crate::hid::{Beeper, BeeperView, IdentityView, Presence, Reading, TestResult};
use crate::lang::Locale;
use crate::panel::{
    absent_rows, battery_rows, beeper_samples, device_rows, fault_rows, fault_samples, flag_row,
    input_rows, number_samples, output_rows, panel_rows, probe, reading_rows, repeated,
    sample_rows, skeleton_rows, status_rows, tenths_text, test_samples, title_rows, unit_samples,
    volts_of, warning_rows, whole_text, word_samples, PanelView,
};
use crate::panel_laws::{the_device_parts, the_nameless_parts};
use crate::row::{Gap, HotspotId, RowView, HOT_BEEPER, HOT_SELFTEST, HOT_SETTINGS};
use crate::strings::Key;
use crate::strs::{decimal, digit_char, magnitude, spaced_text};
use crate::theme::Colors;
use vstd::prelude::*;

verus! {

/// The row the readings start at.
pub open spec fn top_of(data: PanelView) -> int {
    if data.warnings.len() == 0 {
        2
    } else {
        data.warnings.len() as int + 3
    }
}

/// A row whose value is known.
pub open spec fn told(label: Seq<char>, value: Seq<char>, color: Color) -> RowView {
    RowView::Pair { label, value, color }
}

/// A row whose value is not known: an em dash in the subdued colour.
pub open spec fn untold(label: Seq<char>, c: Colors) -> RowView {
    RowView::Pair { label, value: seq!['\u{2014}'], color: c.text_secondary }
}

/// Whether the panel shows a reading.
pub open spec fn is_live(data: PanelView) -> bool {
    data.presence == Presence::Open && data.reading is Some
}

/// One for a raised flag, and nothing for one that is down or unread.
pub open spec fn one_if(flag: Option<bool>) -> int {
    if flag == Some(true) {
        1
    } else {
        0
    }
}

/// How many notices the flags of a reading take.
pub open spec fn notices(r: Reading) -> int {
    one_if(r.below_capacity_limit) + one_if(r.runtime_limit_expired) + one_if(r.internal_failure)
        + one_if(r.overload) + one_if(r.voltage_out_of_range) + one_if(r.frequency_out_of_range)
        + one_if(r.boost)
}

#[verifier::spinoff_prover]
proof fn the_live_rows(l: Locale, c: Colors, data: PanelView)
    requires
        is_live(data),
    ensures
        ({
            let rows = panel_rows(l, c, data);
            let r = data.reading->0;
            let top = top_of(data);
            let faults = fault_rows(l, c, r);
            let device = device_rows(l, c, data, r);
            &&& faults.len() == notices(r)
            &&& rows.len() == top + 20 + notices(r) + device.len()
            &&& forall|k: int|
                0 <= k < 4 ==> rows[top + k] == #[trigger] input_rows(l, c, r)[k]
            &&& forall|k: int|
                0 <= k < 5 ==> rows[top + 4 + k] == #[trigger] output_rows(l, c, r)[k]
            &&& forall|k: int|
                0 <= k < 9 ==> rows[top + 9 + k] == #[trigger] battery_rows(
                    l,
                    c,
                    r,
                    data.probing,
                )[k]
            &&& forall|k: int|
                0 <= k < 2 ==> rows[top + 18 + k] == #[trigger] status_rows(
                    l,
                    c,
                    r,
                    data.probing,
                )[k]
            &&& forall|k: int| 0 <= k < faults.len() ==> rows[top + 20 + k] == #[trigger] faults[k]
            &&& forall|k: int|
                0 <= k < device.len() ==> rows[top + 20 + notices(r) + k] == #[trigger] device[k]
        }),
{
    let r = data.reading->0;
    let head = title_rows(l) + warning_rows(data.warnings, c);
    assert(head.len() == top_of(data));
    assert(fault_rows(l, c, r).len() == notices(r));
    let body = reading_rows(l, c, data, r);
    assert(panel_rows(l, c, data) == head + body);
}

proof fn an_input_row(l: Locale, c: Colors, data: PanelView, k: int)
    requires
        is_live(data),
        0 <= k < 4,
    ensures
        panel_rows(l, c, data)[top_of(data) + k] == input_rows(l, c, data.reading->0)[k],
{
    the_live_rows(l, c, data);
}

proof fn an_output_row(l: Locale, c: Colors, data: PanelView, k: int)
    requires
        is_live(data),
        0 <= k < 5,
    ensures
        panel_rows(l, c, data)[top_of(data) + 4 + k] == output_rows(l, c, data.reading->0)[k],
{
    the_live_rows(l, c, data);
}

proof fn a_battery_row(l: Locale, c: Colors, data: PanelView, k: int)
    requires
        is_live(data),
        0 <= k < 9,
    ensures
        panel_rows(l, c, data)[top_of(data) + 9 + k] == battery_rows(
            l,
            c,
            data.reading->0,
            data.probing,
        )[k],
{
    the_live_rows(l, c, data);
}

proof fn a_status_row(l: Locale, c: Colors, data: PanelView, k: int)
    requires
        is_live(data),
        0 <= k < 2,
    ensures
        panel_rows(l, c, data)[top_of(data) + 18 + k] == status_rows(
            l,
            c,
            data.reading->0,
            data.probing,
        )[k],
{
    the_live_rows(l, c, data);
}

proof fn a_device_row(l: Locale, c: Colors, data: PanelView, k: int)
    requires
        is_live(data),
        0 <= k < device_rows(l, c, data, data.reading->0).len(),
    ensures
        panel_rows(l, c, data).len() == top_of(data) + 20 + notices(data.reading->0) + device_rows(
            l,
            c,
            data,
            data.reading->0,
        ).len(),
        panel_rows(l, c, data)[top_of(data) + 20 + notices(data.reading->0) + k] == device_rows(
            l,
            c,
            data,
            data.reading->0,
        )[k],
{
    the_live_rows(l, c, data);
}

/// The title stands first with the button that opens the settings, then half a
/// gap; below them every warning in its own row, in the order they came and in
/// the warning colour, and a gap under the last.
pub proof fn the_panel_opens_with_its_title_and_warnings(l: Locale, c: Colors, data: PanelView)
    ensures
        panel_rows(l, c, data)[0] == (RowView::TitleButton {
            title: l.text(Key::PanelTitle),
            button: l.text(Key::MenuSettings),
            id: HotspotId(HOT_SETTINGS),
        }),
        panel_rows(l, c, data)[1] == RowView::Space(Gap::Half),
        forall|i: int|
            0 <= i < data.warnings.len() ==> #[trigger] panel_rows(l, c, data)[2 + i]
                == (RowView::Wrapped { text: data.warnings[i], color: c.warning }),
        data.warnings.len() > 0 ==> panel_rows(l, c, data)[top_of(data) - 1] == RowView::Space(
            Gap::Single,
        ),
{
    let rows = panel_rows(l, c, data);
    let warnings = warning_rows(data.warnings, c);
    assert(rows[0] == title_rows(l)[0]);
    assert(rows[1] == title_rows(l)[1]);
    assert forall|i: int| 0 <= i < data.warnings.len() implies #[trigger] rows[2 + i]
        == (RowView::Wrapped { text: data.warnings[i], color: c.warning }) by {
        assert(rows[2 + i] == warnings[i]);
    }
    if data.warnings.len() > 0 {
        assert(rows[top_of(data) - 1] == warnings[data.warnings.len() as int]);
    }
}

/// The five groups of a live panel stand under their own headings, in this
/// order: input, output, battery, status and device, the notices of the status
/// group between it and the last.
#[verifier::spinoff_prover]
pub proof fn the_groups_stand_in_order(l: Locale, c: Colors, data: PanelView)
    requires
        is_live(data),
    ensures
        ({
            let rows = panel_rows(l, c, data);
            let top = top_of(data);
            &&& rows[top] == RowView::Header(l.text(Key::PanelGroupInput))
            &&& rows[top + 4] == RowView::Header(l.text(Key::PanelGroupOutput))
            &&& rows[top + 9] == RowView::Header(l.text(Key::PanelGroupBattery))
            &&& rows[top + 18] == RowView::Header(l.text(Key::PanelGroupStatus))
            &&& rows[top + 20 + notices(data.reading->0)] == RowView::Header(
                l.text(Key::PanelGroupDevice),
            )
            &&& rows.len() == top + 20 + notices(data.reading->0) + if data.identity is Some {
                9int
            } else {
                4
            }
        }),
{
    let r = data.reading->0;
    if data.identity is Some {
        the_device_parts(l, c, data, r);
    } else {
        the_nameless_parts(l, c, data, r);
    }
    an_input_row(l, c, data, 0);
    an_output_row(l, c, data, 0);
    a_battery_row(l, c, data, 0);
    a_status_row(l, c, data, 0);
    a_device_row(l, c, data, 0);
}

/// The text of a whole number of volts.
pub open spec fn is_whole(text: Seq<char>, n: int) -> bool {
    &&& n >= 0 ==> text == decimal(n as nat)
    &&& n < 0 ==> text == seq!['-'] + decimal((-n) as nat)
}

/// The power row of a live panel that has been read says what the mains flag
/// says: online in the colour of health, on battery in the colour of warning,
/// and nothing when it did not read. While the device is still being probed it
/// says nothing either.
#[verifier::spinoff_prover]
pub proof fn the_power_row_tells_the_mains(l: Locale, c: Colors, data: PanelView)
    requires
        is_live(data),
    ensures
        ({
            let row = panel_rows(l, c, data)[top_of(data) + 19];
            let label = l.text(Key::PanelState);
            let mains = (data.reading->0).ac_present;
            let online = told(label, l.text(Key::StateOnline), c.ok);
            let on_battery = told(label, l.text(Key::StateOnBattery), c.warning);
            &&& !data.probing && mains == Some(true) ==> row == online
            &&& !data.probing && mains == Some(false) ==> row == on_battery
            &&& data.probing || mains is None ==> row == untold(label, c)
            &&& !data.probing && c.ok != c.warning && c.ok != c.text_secondary && c.warning
                != c.text_secondary ==> {
                &&& row == online <==> mains == Some(true)
                &&& row == on_battery <==> mains == Some(false)
            }
        }),
{
    a_status_row(l, c, data, 1);
}

/// The input group shows the two voltages and the transfer window, each to the
/// volt; the window only when both of its ends have read.
#[verifier::spinoff_prover]
pub proof fn the_input_rows_show_the_voltages(l: Locale, c: Colors, data: PanelView, text: Seq<char>)
    requires
        is_live(data),
    ensures
        ({
            let rows = panel_rows(l, c, data);
            let r = data.reading->0;
            let top = top_of(data);
            let unit = seq![' '] + l.text(Key::UnitVolt);
            &&& r.input_voltage is None ==> rows[top + 1] == untold(
                l.text(Key::PanelInputVoltage),
                c,
            )
            &&& r.input_voltage matches Some(v) ==> is_whole(text, v as int) ==> rows[top + 1]
                == told(l.text(Key::PanelInputVoltage), text + unit, c.text_primary)
            &&& r.input_nominal_voltage is None ==> rows[top + 2] == untold(
                l.text(Key::PanelInputNominal),
                c,
            )
            &&& r.input_nominal_voltage matches Some(v) ==> is_whole(text, v as int) ==> rows[top
                + 2] == told(l.text(Key::PanelInputNominal), text + unit, c.text_primary)
        }),
{
    let r = data.reading->0;
    let unit = l.text(Key::UnitVolt);
    an_input_row(l, c, data, 1);
    an_input_row(l, c, data, 2);
    match r.input_voltage {
        Some(v) => {
            the_text_of_volts(text, v, unit);
        },
        None => {},
    }
    match r.input_nominal_voltage {
        Some(v) => {
            the_text_of_volts(text, v, unit);
        },
        None => {},
    }
}

proof fn the_text_of_volts(text: Seq<char>, v: i32, unit: Seq<char>)
    ensures
        is_whole(text, v as int) ==> whole_text(v as int) == text && volts_of(Some(v), unit) == Some(
            text + (seq![' '] + unit),
        ),
{
    if is_whole(text, v as int) {
        assert(whole_text(v as int) =~= text);
        assert(text + seq![' '] + unit =~= text + (seq![' '] + unit));
    }
}

/// The transfer window is its two ends with an en dash between them.
#[verifier::spinoff_prover]
pub proof fn the_window_shows_both_ends(
    l: Locale,
    c: Colors,
    data: PanelView,
    low: Seq<char>,
    high: Seq<char>,
)
    requires
        is_live(data),
    ensures
        ({
            let row = panel_rows(l, c, data)[top_of(data) + 3];
            let r = data.reading->0;
            let label = l.text(Key::PanelTransferWindow);
            &&& r.low_transfer_voltage is None || r.high_transfer_voltage is None ==> row == untold(
                label,
                c,
            )
            &&& r.low_transfer_voltage is Some && r.high_transfer_voltage is Some && is_whole(
                low,
                r.low_transfer_voltage->0 as int,
            ) && is_whole(high, r.high_transfer_voltage->0 as int) ==> row == told(
                label,
                low + seq!['\u{2013}'] + high + seq![' '] + l.text(Key::UnitVolt),
                c.text_primary,
            )
        }),
{
    let r = data.reading->0;
    an_input_row(l, c, data, 3);
    if r.low_transfer_voltage is Some && r.high_transfer_voltage is Some {
        the_text_of_volts(low, r.low_transfer_voltage->0, seq![]);
        the_text_of_volts(high, r.high_transfer_voltage->0, seq![]);
    }
}

/// The output group shows the voltage, and the load in percent, watts and
/// volt-amperes. The load turns to the warning colour at 75 percent and to the
/// critical one at 90.
#[verifier::spinoff_prover]
pub proof fn the_output_rows_show_the_load(l: Locale, c: Colors, data: PanelView, text: Seq<char>)
    requires
        is_live(data),
    ensures
        ({
            let rows = panel_rows(l, c, data);
            let r = data.reading->0;
            let top = top_of(data);
            &&& r.output_voltage is None ==> rows[top + 5] == untold(
                l.text(Key::PanelOutputVoltage),
                c,
            )
            &&& r.output_voltage matches Some(v) ==> is_whole(text, v as int) ==> rows[top + 5]
                == told(
                l.text(Key::PanelOutputVoltage),
                text + (seq![' '] + l.text(Key::UnitVolt)),
                c.text_primary,
            )
            &&& r.load_percent is None ==> rows[top + 6] == untold(l.text(Key::PanelLoadPercent), c)
            &&& r.load_percent matches Some(p) ==> rows[top + 6] == told(
                l.text(Key::PanelLoadPercent),
                decimal(p as nat) + seq![' '] + l.text(Key::UnitPercent),
                if p < 75 {
                    c.text_primary
                } else if p < 90 {
                    c.warning
                } else {
                    c.critical
                },
            )
            &&& r.load_watts is None ==> rows[top + 7] == untold(l.text(Key::PanelLoadWatts), c)
            &&& r.load_watts matches Some(n) ==> rows[top + 7] == told(
                l.text(Key::PanelLoadWatts),
                decimal(n as nat) + seq![' '] + l.text(Key::UnitWatt),
                c.text_primary,
            )
            &&& r.load_va is None ==> rows[top + 8] == untold(l.text(Key::PanelLoadVa), c)
            &&& r.load_va matches Some(n) ==> rows[top + 8] == told(
                l.text(Key::PanelLoadVa),
                decimal(n as nat) + seq![' '] + l.text(Key::UnitVoltAmp),
                c.text_primary,
            )
        }),
{
    let r = data.reading->0;
    an_output_row(l, c, data, 1);
    an_output_row(l, c, data, 2);
    an_output_row(l, c, data, 3);
    an_output_row(l, c, data, 4);
    match r.output_voltage {
        Some(v) => {
            the_text_of_volts(text, v, l.text(Key::UnitVolt));
        },
        None => {},
    }
}

/// The battery group shows the charge, in the critical colour up to 20 percent,
/// in the warning colour up to 50 and in the colour of health above, and the
/// two limits set for it in the subdued colour.
#[verifier::spinoff_prover]
pub proof fn the_battery_rows_show_the_charge(l: Locale, c: Colors, data: PanelView)
    requires
        is_live(data),
    ensures
        ({
            let rows = panel_rows(l, c, data);
            let r = data.reading->0;
            let top = top_of(data);
            let unit = l.text(Key::UnitPercent);
            &&& r.charge_percent is None ==> rows[top + 10] == untold(l.text(Key::PanelCharge), c)
            &&& r.charge_percent matches Some(p) ==> rows[top + 10] == told(
                l.text(Key::PanelCharge),
                decimal(p as nat) + seq![' '] + unit,
                if p > 50 {
                    c.ok
                } else if p > 20 {
                    c.warning
                } else {
                    c.critical
                },
            )
            &&& r.capacity_limit_percent is None ==> rows[top + 15] == untold(
                l.text(Key::PanelCapacityLimit),
                c,
            )
            &&& r.capacity_limit_percent matches Some(p) ==> rows[top + 15] == told(
                l.text(Key::PanelCapacityLimit),
                decimal(p as nat) + seq![' '] + unit,
                c.text_secondary,
            )
            &&& r.warning_capacity_percent is None ==> rows[top + 16] == untold(
                l.text(Key::PanelWarningCapacity),
                c,
            )
            &&& r.warning_capacity_percent matches Some(p) ==> rows[top + 16] == told(
                l.text(Key::PanelWarningCapacity),
                decimal(p as nat) + seq![' '] + unit,
                c.text_secondary,
            )
        }),
{
    a_battery_row(l, c, data, 1);
    a_battery_row(l, c, data, 6);
    a_battery_row(l, c, data, 7);
}

/// A battery voltage is shown to the tenth of a volt: one read as `10 * whole +
/// tenth` tenths, or as many below zero, shows the whole, a point and the tenth.
#[verifier::spinoff_prover]
pub proof fn the_battery_voltages_show_their_tenths(
    l: Locale,
    c: Colors,
    data: PanelView,
    whole: nat,
    tenth: nat,
)
    requires
        is_live(data),
        tenth < 10,
    ensures
        ({
            let rows = panel_rows(l, c, data);
            let r = data.reading->0;
            let top = top_of(data);
            let n = 10 * whole + tenth;
            let text = decimal(whole) + seq!['.'] + decimal(tenth) + seq![' '] + l.text(
                Key::UnitVolt,
            );
            &&& r.battery_decivolts is None ==> rows[top + 11] == untold(
                l.text(Key::PanelBatteryVoltage),
                c,
            )
            &&& r.battery_decivolts is Some && r.battery_decivolts->0 == n ==> rows[top + 11]
                == told(l.text(Key::PanelBatteryVoltage), text, c.text_primary)
            &&& r.battery_decivolts is Some && n > 0 && r.battery_decivolts->0 == -n ==> rows[top
                + 11] == told(
                l.text(Key::PanelBatteryVoltage),
                seq!['-'] + text,
                c.text_primary,
            )
            &&& r.battery_nominal_decivolts is None ==> rows[top + 12] == untold(
                l.text(Key::PanelBatteryNominal),
                c,
            )
            &&& r.battery_nominal_decivolts is Some && r.battery_nominal_decivolts->0 == n
                ==> rows[top + 12] == told(l.text(Key::PanelBatteryNominal), text, c.text_primary)
            &&& r.battery_nominal_decivolts is Some && n > 0 && r.battery_nominal_decivolts->0
                == -n ==> rows[top + 12] == told(
                l.text(Key::PanelBatteryNominal),
                seq!['-'] + text,
                c.text_primary,
            )
        }),
{
    a_battery_row(l, c, data, 2);
    a_battery_row(l, c, data, 3);
    the_text_of_tenths(whole, tenth, l.text(Key::UnitVolt));
}

proof fn the_text_of_tenths(whole: nat, tenth: nat, unit: Seq<char>)
    requires
        tenth < 10,
    ensures
        ({
            let n = 10 * whole + tenth;
            let text = decimal(whole) + seq!['.'] + decimal(tenth) + seq![' '] + unit;
            &&& spaced_text(tenths_text(n as int), unit) == text
            &&& n > 0 ==> spaced_text(tenths_text(-n), unit) == seq!['-'] + text
        }),
{
    let n = 10 * whole + tenth;
    let text = decimal(whole) + seq!['.'] + decimal(tenth) + seq![' '] + unit;
    assert(n / 10 == whole && n % 10 == tenth);
    assert(decimal(tenth) =~= seq![digit_char(tenth)]);
    assert(spaced_text(tenths_text(n as int), unit) =~= text);
    if n > 0 {
        assert(magnitude(-n) == n);
        assert(spaced_text(tenths_text(-n), unit) =~= seq!['-'] + text);
    }
}

/// The two times of the battery group are shown in whole minutes, the last one
/// not counted until it is full.
#[verifier::spinoff_prover]
pub proof fn the_times_show_whole_minutes(
    l: Locale,
    c: Colors,
    data: PanelView,
    minutes: nat,
    seconds: nat,
)
    requires
        is_live(data),
        seconds < 60,
    ensures
        ({
            let rows = panel_rows(l, c, data);
            let r = data.reading->0;
            let top = top_of(data);
            let text = decimal(minutes) + seq![' '] + l.text(Key::UnitMinutes);
            &&& r.runtime_seconds is None ==> rows[top + 13] == untold(l.text(Key::PanelRuntime), c)
            &&& r.runtime_seconds is Some && r.runtime_seconds->0 == 60 * minutes + seconds
                ==> rows[top + 13] == told(l.text(Key::PanelRuntime), text, c.text_primary)
            &&& r.runtime_limit_seconds is None ==> rows[top + 17] == untold(
                l.text(Key::PanelRuntimeLimit),
                c,
            )
            &&& r.runtime_limit_seconds is Some && r.runtime_limit_seconds->0 == 60 * minutes
                + seconds ==> rows[top + 17] == told(
                l.text(Key::PanelRuntimeLimit),
                text,
                c.text_secondary,
            )
        }),
{
    a_battery_row(l, c, data, 4);
    a_battery_row(l, c, data, 8);
    assert((60 * minutes + seconds) / 60 == minutes);
}

/// The state of the charge is the first of these that is raised: full,
/// charging, discharging. With one of them read and none raised the battery is
/// idle; with none read, or while probing, nothing is said.
#[verifier::spinoff_prover]
pub proof fn the_charge_state_is_the_first_raised(l: Locale, c: Colors, data: PanelView)
    requires
        is_live(data),
    ensures
        ({
            let row = panel_rows(l, c, data)[top_of(data) + 14];
            let r = data.reading->0;
            let label = l.text(Key::PanelChargeState);
            let (full, up, down) = (r.fully_charged, r.charging, r.discharging);
            &&& data.probing ==> row == untold(label, c)
            &&& full is None && up is None && down is None ==> row == untold(label, c)
            &&& !data.probing && full == Some(true) ==> row == told(
                label,
                l.text(Key::StateFullyCharged),
                c.text_primary,
            )
            &&& !data.probing && full != Some(true) && up == Some(true) ==> row == told(
                label,
                l.text(Key::StateCharging),
                c.text_primary,
            )
            &&& !data.probing && full != Some(true) && up != Some(true) && down == Some(true)
                ==> row == told(label, l.text(Key::StateDischarging), c.text_primary)
            &&& !data.probing && full != Some(true) && up != Some(true) && down != Some(true) && (
            full is Some || up is Some || down is Some) ==> row == told(
                label,
                l.text(Key::StateIdle),
                c.text_primary,
            )
        }),
{
    a_battery_row(l, c, data, 5);
}

/// Each raised flag has one notice below the power row, in the order of the
/// flags, all critical but the boost; one that is down or unread has none.
#[verifier::spinoff_prover]
pub proof fn each_raised_flag_has_its_notice(l: Locale, c: Colors, data: PanelView)
    requires
        is_live(data),
    ensures
        ({
            let rows = panel_rows(l, c, data);
            let r = data.reading->0;
            let a = top_of(data) + 20;
            let b = a + one_if(r.below_capacity_limit);
            let d = b + one_if(r.runtime_limit_expired);
            let e = d + one_if(r.internal_failure);
            let f = e + one_if(r.overload);
            let g = f + one_if(r.voltage_out_of_range);
            let h = g + one_if(r.frequency_out_of_range);
            &&& r.below_capacity_limit == Some(true) ==> rows[a] == (RowView::Notice {
                text: l.text(Key::FlagLowBattery),
                color: c.critical,
            })
            &&& r.runtime_limit_expired == Some(true) ==> rows[b] == (RowView::Notice {
                text: l.text(Key::FlagRuntimeLimitExpired),
                color: c.critical,
            })
            &&& r.internal_failure == Some(true) ==> rows[d] == (RowView::Notice {
                text: l.text(Key::FlagInternalFailure),
                color: c.critical,
            })
            &&& r.overload == Some(true) ==> rows[e] == (RowView::Notice {
                text: l.text(Key::FlagOverload),
                color: c.critical,
            })
            &&& r.voltage_out_of_range == Some(true) ==> rows[f] == (RowView::Notice {
                text: l.text(Key::FlagVoltageOutOfRange),
                color: c.critical,
            })
            &&& r.frequency_out_of_range == Some(true) ==> rows[g] == (RowView::Notice {
                text: l.text(Key::FlagFrequencyOutOfRange),
                color: c.critical,
            })
            &&& r.boost == Some(true) ==> rows[h] == (RowView::Notice {
                text: l.text(Key::FlagBoost),
                color: c.warning,
            })
        }),
{
    let r = data.reading->0;
    the_notices_in_order(l, c, r);
    if r.below_capacity_limit == Some(true) {
        a_notice_row(l, c, data, 0);
    }
    let b = one_if(r.below_capacity_limit);
    if r.runtime_limit_expired == Some(true) {
        a_notice_row(l, c, data, b);
    }
    let d = b + one_if(r.runtime_limit_expired);
    if r.internal_failure == Some(true) {
        a_notice_row(l, c, data, d);
    }
    let e = d + one_if(r.internal_failure);
    if r.overload == Some(true) {
        a_notice_row(l, c, data, e);
    }
    let f = e + one_if(r.overload);
    if r.voltage_out_of_range == Some(true) {
        a_notice_row(l, c, data, f);
    }
    let g = f + one_if(r.voltage_out_of_range);
    if r.frequency_out_of_range == Some(true) {
        a_notice_row(l, c, data, g);
    }
    let h = g + one_if(r.frequency_out_of_range);
    if r.boost == Some(true) {
        a_notice_row(l, c, data, h);
    }
}

proof fn a_notice_row(l: Locale, c: Colors, data: PanelView, k: int)
    requires
        is_live(data),
        0 <= k < notices(data.reading->0),
    ensures
        panel_rows(l, c, data)[top_of(data) + 20 + k] == fault_rows(l, c, data.reading->0)[k],
{
    the_live_rows(l, c, data);
}

proof fn the_notices_in_order(l: Locale, c: Colors, r: Reading)
    ensures
        ({
            let rows = fault_rows(l, c, r);
            let b = one_if(r.below_capacity_limit);
            let d = b + one_if(r.runtime_limit_expired);
            let e = d + one_if(r.internal_failure);
            let f = e + one_if(r.overload);
            let g = f + one_if(r.voltage_out_of_range);
            let h = g + one_if(r.frequency_out_of_range);
            &&& r.below_capacity_limit == Some(true) ==> rows[0] == (RowView::Notice {
                text: l.text(Key::FlagLowBattery),
                color: c.critical,
            })
            &&& r.runtime_limit_expired == Some(true) ==> rows[b] == (RowView::Notice {
                text: l.text(Key::FlagRuntimeLimitExpired),
                color: c.critical,
            })
            &&& r.internal_failure == Some(true) ==> rows[d] == (RowView::Notice {
                text: l.text(Key::FlagInternalFailure),
                color: c.critical,
            })
            &&& r.overload == Some(true) ==> rows[e] == (RowView::Notice {
                text: l.text(Key::FlagOverload),
                color: c.critical,
            })
            &&& r.voltage_out_of_range == Some(true) ==> rows[f] == (RowView::Notice {
                text: l.text(Key::FlagVoltageOutOfRange),
                color: c.critical,
            })
            &&& r.frequency_out_of_range == Some(true) ==> rows[g] == (RowView::Notice {
                text: l.text(Key::FlagFrequencyOutOfRange),
                color: c.critical,
            })
            &&& r.boost == Some(true) ==> rows[h] == (RowView::Notice {
                text: l.text(Key::FlagBoost),
                color: c.warning,
            })
        }),
{
    let a = flag_row(r.below_capacity_limit, l.text(Key::FlagLowBattery), c.critical);
    let b = flag_row(r.runtime_limit_expired, l.text(Key::FlagRuntimeLimitExpired), c.critical);
    let d = flag_row(r.internal_failure, l.text(Key::FlagInternalFailure), c.critical);
    let e = flag_row(r.overload, l.text(Key::FlagOverload), c.critical);
    let f = flag_row(r.voltage_out_of_range, l.text(Key::FlagVoltageOutOfRange), c.critical);
    let g = flag_row(r.frequency_out_of_range, l.text(Key::FlagFrequencyOutOfRange), c.critical);
    let h = flag_row(r.boost, l.text(Key::FlagBoost), c.warning);
    one_more_notice(seq![], a);
    one_more_notice(a, b);
    one_more_notice(a + b, d);
    one_more_notice(a + b + d, e);
    one_more_notice(a + b + d + e, f);
    one_more_notice(a + b + d + e + f, g);
    one_more_notice(a + b + d + e + f + g, h);
}

proof fn one_more_notice(front: Seq<RowView>, last: Seq<RowView>)
    ensures
        (front + last).len() == front.len() + last.len(),
        forall|i: int| 0 <= i < front.len() ==> (front + last)[i] == #[trigger] front[i],
        last.len() > 0 ==> (front + last)[front.len() as int] == last[0],
{
}

/// A row of the identity: what the device calls itself, or a dash.
pub open spec fn is_named(row: RowView, label: Seq<char>, value: Option<Seq<char>>, c: Colors) -> bool {
    &&& value is None ==> row == untold(label, c)
    &&& value matches Some(text) ==> row == told(label, text, c.text_primary)
}

/// The device group of a device that named itself shows the five parts of its
/// name, each in its own row; one that did not has no such row.
#[verifier::spinoff_prover]
pub proof fn the_device_rows_show_the_name(l: Locale, c: Colors, data: PanelView)
    requires
        is_live(data),
        data.identity is Some,
    ensures
        ({
            let rows = panel_rows(l, c, data);
            let id = data.identity->0;
            let at = top_of(data) + 20 + notices(data.reading->0);
            &&& is_named(rows[at + 1], l.text(Key::PanelModel), id.model, c)
            &&& is_named(rows[at + 2], l.text(Key::PanelFirmware), id.firmware, c)
            &&& is_named(rows[at + 3], l.text(Key::PanelSerial), id.serial, c)
            &&& is_named(rows[at + 5], l.text(Key::PanelManufacturer), id.manufacturer, c)
            &&& is_named(rows[at + 7], l.text(Key::PanelChemistry), id.chemistry, c)
        }),
{
    the_device_parts(l, c, data, data.reading->0);
    a_device_row(l, c, data, 1);
    a_device_row(l, c, data, 2);
    a_device_row(l, c, data, 3);
    a_device_row(l, c, data, 5);
    a_device_row(l, c, data, 7);
}

/// The nameplate shows the volt-amperes and the watts with a slash between
/// them, one of them alone, or a dash.
#[verifier::spinoff_prover]
pub proof fn the_nameplate_shows_both_ratings(l: Locale, c: Colors, data: PanelView)
    requires
        is_live(data),
    ensures
        ({
            let r = data.reading->0;
            let at = top_of(data) + 20 + notices(r);
            let row = panel_rows(l, c, data)[if data.identity is Some {
                at + 4
            } else {
                at + 1
            }];
            let label = l.text(Key::PanelNominalPower);
            let va = decimal(r.nominal_va->0 as nat) + seq![' '] + l.text(Key::UnitVoltAmp);
            let w = decimal(r.nominal_power_w->0 as nat) + seq![' '] + l.text(Key::UnitWatt);
            &&& r.nominal_va is Some && r.nominal_power_w is Some ==> row == told(
                label,
                va + seq![' ', '/', ' '] + w,
                c.text_primary,
            )
            &&& r.nominal_va is Some && r.nominal_power_w is None ==> row == told(
                label,
                va,
                c.text_primary,
            )
            &&& r.nominal_va is None && r.nominal_power_w is Some ==> row == told(
                label,
                w,
                c.text_primary,
            )
            &&& r.nominal_va is None && r.nominal_power_w is None ==> row == untold(label, c)
        }),
{
    let r = data.reading->0;
    if data.identity is Some {
        the_device_parts(l, c, data, r);
        a_device_row(l, c, data, 4);
    } else {
        the_nameless_parts(l, c, data, r);
        a_device_row(l, c, data, 1);
    }
}

/// The buzzer row shows the mode the buzzer is in, with a button for what can
/// be done about it. A mode that may no longer hold is not shown and its button
/// cannot be pressed; nor can any while a self-test is running. A buzzer nobody
/// has read shows a dash, and one that nothing can be done about has no button.
#[verifier::spinoff_prover]
pub proof fn the_buzzer_row_offers_its_action(
    l: Locale,
    c: Colors,
    data: PanelView,
    mode: Beeper,
)
    requires
        is_live(data),
    ensures
        ({
            let at = top_of(data) + 20 + notices(data.reading->0);
            let row = panel_rows(l, c, data)[if data.identity is Some {
                at + 6
            } else {
                at + 2
            }];
            let label = l.text(Key::PanelBeeper);
            &&& data.beeper == BeeperView::Unknown ==> row == untold(label, c)
            &&& data.beeper == BeeperView::Current(mode) && mode.action is None ==> row == told(
                label,
                l.text(mode.name),
                c.text_primary,
            )
            &&& data.beeper == BeeperView::Stale(mode) && mode.action is None ==> row == told(
                label,
                seq!['\u{2014}'],
                c.text_primary,
            )
            &&& data.beeper == BeeperView::Current(mode) && mode.action is Some ==> row == (
            RowView::LabeledButton {
                label,
                value: l.text(mode.name),
                color: c.text_primary,
                button: l.text(mode.action->0),
                id: HotspotId(HOT_BEEPER),
                enabled: !data.self_test_running,
            })
            &&& data.beeper == BeeperView::Stale(mode) && mode.action is Some ==> row == (
            RowView::LabeledButton {
                label,
                value: seq!['\u{2014}'],
                color: c.text_primary,
                button: l.text(mode.action->0),
                id: HotspotId(HOT_BEEPER),
                enabled: false,
            })
        }),
{
    let r = data.reading->0;
    if data.identity is Some {
        the_device_parts(l, c, data, r);
        a_device_row(l, c, data, 6);
    } else {
        the_nameless_parts(l, c, data, r);
        a_device_row(l, c, data, 2);
    }
}

/// The last row shows how the last self-test ended and offers another. The
/// button can be pressed only on the mains, with the battery known not to be
/// discharging and charged to 90 percent or more, and no test under way; one
/// unread condition is enough to refuse it. While probing there is no button.
#[verifier::spinoff_prover]
pub proof fn a_self_test_is_offered_only_when_safe(l: Locale, c: Colors, data: PanelView)
    requires
        is_live(data),
    ensures
        ({
            let rows = panel_rows(l, c, data);
            let row = rows[rows.len() - 1];
            let r = data.reading->0;
            let label = l.text(Key::PanelLastTest);
            &&& data.probing ==> row == untold(label, c)
            &&& !data.probing ==> row is LabeledButton
            &&& row matches RowView::LabeledButton {
                label: shown,
                value,
                color,
                button,
                id,
                enabled,
            } ==> {
                &&& shown == label
                &&& r.test_result is None ==> value == seq!['\u{2014}']
                &&& r.test_result == Some(TestResult::Passed) ==> value == l.text(
                    Key::TestTestPassed,
                )
                &&& r.test_result == Some(TestResult::PassedWithWarning) ==> value == l.text(
                    Key::TestTestPassedWarning,
                )
                &&& r.test_result == Some(TestResult::Error) ==> value == l.text(Key::TestTestError)
                &&& r.test_result == Some(TestResult::Aborted) ==> value == l.text(
                    Key::TestTestAborted,
                )
                &&& r.test_result == Some(TestResult::InProgress) ==> value == l.text(
                    Key::TestTestInProgress,
                )
                &&& r.test_result == Some(TestResult::NotRun) ==> value == l.text(
                    Key::TestTestNotRun,
                )
                &&& r.test_result == Some(TestResult::Scheduled) ==> value == l.text(
                    Key::TestTestScheduled,
                )
                &&& r.test_result == Some(TestResult::Unknown) ==> value == l.text(
                    Key::TestTestUnknown,
                )
                &&& color == c.text_primary
                &&& button == l.text(Key::PanelSelfTest)
                &&& id == HotspotId(HOT_SELFTEST)
                &&& enabled <==> r.ac_present == Some(true) && r.discharging == Some(false)
                    && r.charge_percent is Some && r.charge_percent->0 >= 90
                    && !data.self_test_running && r.test_result != Some(TestResult::InProgress)
            }
        }),
{
    let r = data.reading->0;
    if data.identity is Some {
        the_device_parts(l, c, data, r);
        a_device_row(l, c, data, 8);
    } else {
        the_nameless_parts(l, c, data, r);
        a_device_row(l, c, data, 3);
    }
}

/// Without a device the panel says so, under its title and warnings, with what
/// to do about it.
pub proof fn an_absent_device_is_reported(l: Locale, c: Colors, data: PanelView)
    requires
        data.presence == Presence::Absent,
    ensures
        ({
            let rows = panel_rows(l, c, data);
            let top = top_of(data);
            &&& rows.len() == top + 6
            &&& rows[top] == RowView::Space(Gap::Single)
            &&& rows[top + 1] == (RowView::Wrapped {
                text: l.text(Key::StateDisconnected),
                color: c.critical,
            })
            &&& rows[top + 2] == RowView::Space(Gap::Half)
            &&& rows[top + 3] == (RowView::Wrapped {
                text: l.text(Key::ErrorDeviceNotFound),
                color: c.text_primary,
            })
            &&& rows[top + 4] == RowView::Space(Gap::Half)
            &&& rows[top + 5] == (RowView::Wrapped {
                text: l.text(Key::ErrorDeviceNotFoundHint),
                color: c.text_secondary,
            })
        }),
{
    let rows = panel_rows(l, c, data);
    let head = title_rows(l) + warning_rows(data.warnings, c);
    assert(head.len() == top_of(data));
    assert(rows == head + absent_rows(l, c));
    assert(rows[top_of(data)] == absent_rows(l, c)[0]);
}

/// Before a device has answered the panel is that of one that has read nothing
/// and is being probed: every row in its place, and nothing said in it.
pub proof fn a_panel_waits_as_an_unread_one(l: Locale, c: Colors, data: PanelView, live: PanelView)
    requires
        data.presence == Presence::Unprobed || (data.presence == Presence::Open && data.reading
            is None),
        is_live(live),
        live.reading == Some(Reading::unread()),
        live.identity == Some(IdentityView::blank()),
        live.beeper == BeeperView::Unknown,
        live.probing,
        !live.self_test_running,
        live.warnings == data.warnings,
    ensures
        panel_rows(l, c, data) == panel_rows(l, c, live),
{
    assert(reading_rows(l, c, live, Reading::unread()) == reading_rows(
        l,
        c,
        probe(),
        Reading::unread(),
    ));
    assert(skeleton_rows(l, c) == reading_rows(l, c, probe(), Reading::unread()));
}

/// The room kept for a number, in each of the five units: its widest is four
/// equal digits, alone and as both ends of a range, for each of the ten digits.
#[verifier::spinoff_prover]
pub proof fn the_samples_hold_every_digit_in_every_unit(
    l: Locale,
    c: Colors,
    unit: Key,
    u: int,
    d: nat,
)
    requires
        d < 10,
        (unit == Key::UnitVolt && u == 0) || (unit == Key::UnitWatt && u == 1) || (unit
            == Key::UnitVoltAmp && u == 2) || (unit == Key::UnitPercent && u == 3) || (unit
            == Key::UnitMinutes && u == 4),
    ensures
        ({
            let samples = sample_rows(l, c);
            let digits = decimal(d) + decimal(d) + decimal(d) + decimal(d);
            &&& samples.len() == 130
            &&& samples[20 * u + 2 * d] == told(
                seq![],
                digits + seq![' '] + l.text(unit),
                c.text_primary,
            )
            &&& samples[20 * u + 2 * d + 1] == told(
                seq![],
                digits + seq!['\u{2013}'] + digits + seq![' '] + l.text(unit),
                c.text_primary,
            )
        }),
{
    let digits = decimal(d) + decimal(d) + decimal(d) + decimal(d);
    let own = unit_samples(l.text(unit), c);
    assert(repeated(d as int) =~= digits);
    let even = 2 * d as int;
    let odd = 2 * d as int + 1;
    assert(even % 2 == 0 && even / 2 == d && odd % 2 == 1 && odd / 2 == d);
    assert(own[even] == told(seq![], digits + seq![' '] + l.text(unit), c.text_primary));
    assert(own[odd] == told(
        seq![],
        digits + seq!['\u{2013}'] + digits + seq![' '] + l.text(unit),
        c.text_primary,
    ));
    the_number_samples_stand_by_unit(l, c, unit, u, even);
    the_number_samples_stand_by_unit(l, c, unit, u, odd);
    the_samples_stand_in_order(l, c);
    assert(sample_rows(l, c)[20 * u + even] == number_samples(l, c)[20 * u + even]);
    assert(sample_rows(l, c)[20 * u + odd] == number_samples(l, c)[20 * u + odd]);
}

proof fn the_number_samples_stand_by_unit(l: Locale, c: Colors, unit: Key, u: int, k: int)
    requires
        0 <= k < 20,
        (unit == Key::UnitVolt && u == 0) || (unit == Key::UnitWatt && u == 1) || (unit
            == Key::UnitVoltAmp && u == 2) || (unit == Key::UnitPercent && u == 3) || (unit
            == Key::UnitMinutes && u == 4),
    ensures
        number_samples(l, c).len() == 100,
        number_samples(l, c)[20 * u + k] == unit_samples(l.text(unit), c)[k],
{
}

proof fn the_samples_stand_in_order(l: Locale, c: Colors)
    ensures
        sample_rows(l, c).len() == 130,
        forall|k: int| 0 <= k < 100 ==> sample_rows(l, c)[k] == #[trigger] number_samples(l, c)[k],
        forall|k: int| 0 <= k < 8 ==> sample_rows(l, c)[100 + k] == #[trigger] word_samples(l, c)[k],
        forall|k: int|
            0 <= k < 8 ==> sample_rows(l, c)[108 + k] == #[trigger] beeper_samples(l, c)[k],
        forall|k: int| 0 <= k < 8 ==> sample_rows(l, c)[116 + k] == #[trigger] test_samples(l, c)[k],
        forall|k: int|
            0 <= k < 6 ==> sample_rows(l, c)[124 + k] == #[trigger] fault_samples(l, c)[k],
{
    assert(number_samples(l, c).len() == 100);
}

/// A sample of a row with a button, as wide as the row it stands for.
pub open spec fn offered(value: Seq<char>, button: Seq<char>, id: u32, c: Colors) -> RowView {
    RowView::LabeledButton {
        label: seq![],
        value,
        color: c.text_primary,
        button,
        id: HotspotId(id),
        enabled: false,
    }
}

/// The room kept for the words: every state the panel can name, every mode of
/// the buzzer with either of its buttons, every result of a self-test with its
/// button, and every critical flag.
#[verifier::spinoff_prover]
pub proof fn the_samples_hold_every_word(l: Locale, c: Colors)
    ensures
        ({
            let rows = sample_rows(l, c);
            let told = |key: Key| told(seq![], l.text(key), c.text_primary);
            &&& rows[100] == told(Key::StateOnline)
            &&& rows[101] == told(Key::StateOnBattery)
            &&& rows[102] == told(Key::StateDisconnected)
            &&& rows[103] == told(Key::StateCharging)
            &&& rows[104] == told(Key::StateDischarging)
            &&& rows[105] == told(Key::StateFullyCharged)
            &&& rows[106] == told(Key::StateIdle)
            &&& rows[107] == told(Key::BeeperUnsupported)
        }),
        ({
            let rows = sample_rows(l, c);
            let buzzer = |mode: Key, action: Key|
                offered(l.text(mode), l.text(action), HOT_BEEPER, c);
            &&& rows[108] == buzzer(Key::BeeperDisabled, Key::BeeperEnable)
            &&& rows[109] == buzzer(Key::BeeperDisabled, Key::BeeperDisable)
            &&& rows[110] == buzzer(Key::BeeperEnabled, Key::BeeperEnable)
            &&& rows[111] == buzzer(Key::BeeperEnabled, Key::BeeperDisable)
            &&& rows[112] == buzzer(Key::BeeperMuted, Key::BeeperEnable)
            &&& rows[113] == buzzer(Key::BeeperMuted, Key::BeeperDisable)
            &&& rows[114] == buzzer(Key::BeeperUnsupported, Key::BeeperEnable)
            &&& rows[115] == buzzer(Key::BeeperUnsupported, Key::BeeperDisable)
        }),
        ({
            let rows = sample_rows(l, c);
            let test = |result: Key|
                offered(l.text(result), l.text(Key::PanelSelfTest), HOT_SELFTEST, c);
            &&& rows[116] == test(Key::TestTestPassed)
            &&& rows[117] == test(Key::TestTestPassedWarning)
            &&& rows[118] == test(Key::TestTestError)
            &&& rows[119] == test(Key::TestTestAborted)
            &&& rows[120] == test(Key::TestTestInProgress)
            &&& rows[121] == test(Key::TestTestNotRun)
            &&& rows[122] == test(Key::TestTestScheduled)
            &&& rows[123] == test(Key::TestTestUnknown)
        }),
        ({
            let rows = sample_rows(l, c);
            let flag = |key: Key| RowView::Notice { text: l.text(key), color: c.critical };
            &&& rows[124] == flag(Key::FlagLowBattery)
            &&& rows[125] == flag(Key::FlagRuntimeLimitExpired)
            &&& rows[126] == flag(Key::FlagInternalFailure)
            &&& rows[127] == flag(Key::FlagOverload)
            &&& rows[128] == flag(Key::FlagVoltageOutOfRange)
            &&& rows[129] == flag(Key::FlagFrequencyOutOfRange)
        }),
{
    the_samples_stand_in_order(l, c);
    let (words, buzzers) = (word_samples(l, c), beeper_samples(l, c));
    let (tests, faults) = (test_samples(l, c), fault_samples(l, c));
    assert(words[0] is Pair && words[1] is Pair && words[2] is Pair && words[3] is Pair
        && words[4] is Pair && words[5] is Pair && words[6] is Pair && words[7] is Pair);
    assert(buzzers[0] is LabeledButton && buzzers[1] is LabeledButton && buzzers[2] is LabeledButton
        && buzzers[3] is LabeledButton && buzzers[4] is LabeledButton && buzzers[5] is LabeledButton
        && buzzers[6] is LabeledButton && buzzers[7] is LabeledButton);
    assert(tests[0] is LabeledButton && tests[1] is LabeledButton && tests[2] is LabeledButton
        && tests[3] is LabeledButton && tests[4] is LabeledButton && tests[5] is LabeledButton
        && tests[6] is LabeledButton && tests[7] is LabeledButton);
    assert(faults[0] is Notice && faults[1] is Notice && faults[2] is Notice && faults[3] is Notice
        && faults[4] is Notice && faults[5] is Notice);
}

} // verus!
