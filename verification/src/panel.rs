//! Builds the panel's contents as data.
//!
//! An unreadable field renders as an em dash: its row is neither absent, which
//! would pull the rows below it up, nor the previous value, which would be
//! indistinguishable from a live one.

use crate::color::Color;
use crate::format::{format_runtime, runtime_text};
use crate::hid::{
    is_raised, raised, text_view, Beeper, BeeperView, Identity, IdentityView, Presence, Reading,
    TestResult, MIN_CHARGE_PERCENT,
};
use crate::lang::Locale;
use crate::row::{
    rows_view, rows_view_push, Gap, HotspotId, Row, RowView, HOT_BEEPER, HOT_SELFTEST,
    HOT_SETTINGS,
};
use crate::strings::Key;
use crate::strs::{
    decimal, decimal_text, digit, digit_char, magnitude, sign_of, sign_text, spaced, spaced_text,
    without_sign,
};
use crate::theme::{Colors, Theme};
use vstd::prelude::*;
use vstd::string::*;

verus! {

/// Em dash used for a value that is not known.
pub const EM_DASH: char = '\u{2014}';

/// En dash between the two ends of a range.
pub const EN_DASH: char = '\u{2013}';

/// A snapshot of everything the panel draws from, borrowed for one build.
#[derive(Debug, Clone)]
pub struct PanelData<'a> {
    pub reading: Option<&'a Reading>,
    pub identity: Option<&'a Identity>,
    pub presence: Presence,
    /// What is known about the buzzer mode: current, stale, or nothing at all.
    pub beeper: BeeperView,
    /// Standing complaints, already rendered in the interface language and in
    /// display order.
    pub warnings: Vec<String>,
    /// True while the panel is drawn before the device has answered anything.
    pub probing: bool,
    /// True while a self-test this utility asked for is under way.
    pub self_test_running: bool,
}

/// What panel data says.
pub struct PanelView {
    pub reading: Option<Reading>,
    pub identity: Option<IdentityView>,
    pub presence: Presence,
    pub beeper: BeeperView,
    pub warnings: Seq<Seq<char>>,
    pub probing: bool,
    pub self_test_running: bool,
}

impl<'a> View for PanelData<'a> {
    type V = PanelView;

    open spec fn view(&self) -> PanelView {
        PanelView {
            reading: match self.reading {
                Some(r) => Some(*r),
                None => None,
            },
            identity: match self.identity {
                Some(i) => Some(i@),
                None => None,
            },
            presence: self.presence,
            beeper: self.beeper,
            warnings: Seq::new(self.warnings@.len(), |i: int| self.warnings@[i]@),
            probing: self.probing,
            self_test_running: self.self_test_running,
        }
    }
}

/// Which of the panel's three shapes the data calls for.
#[derive(Debug)]
pub enum Shown<'a> {
    /// Nothing has come back yet, or the device is open and has not reported a
    /// reading.
    Connecting,
    /// There is no device to talk to.
    Absent,
    /// The device is open and this is its latest reading.
    Live { reading: &'a Reading },
}

impl PanelView {
    /// Whether the panel is still waiting for its first reading.
    pub open spec fn connecting(self) -> bool {
        self.presence is Unprobed || (self.presence is Open && self.reading is None)
    }
}

impl<'a> PanelData<'a> {
    /// Which shape this data calls for.
    pub fn shown(&self) -> (s: Shown<'a>)
        ensures
            s is Connecting == self@.connecting(),
            s is Absent == (self@.presence is Absent),
            s matches Shown::Live { reading } ==> self@.presence is Open && self@.reading == Some(
                *reading,
            ),
    {
        match self.presence {
            Presence::Unprobed => Shown::Connecting,
            Presence::Absent => Shown::Absent,
            Presence::Open => match self.reading {
                Some(reading) => Shown::Live { reading },
                None => Shown::Connecting,
            },
        }
    }
}

/// The colour of a load.
pub open spec fn load_tone(percent: u32, c: Colors) -> Color {
    if percent >= 90 {
        c.critical
    } else if percent >= 75 {
        c.warning
    } else {
        c.text_primary
    }
}

/// The colour of a charge.
pub open spec fn charge_tone(percent: u32, c: Colors) -> Color {
    if percent <= 20 {
        c.critical
    } else if percent <= 50 {
        c.warning
    } else {
        c.ok
    }
}

/// Colour for a load percentage. Boundaries belong to the more severe band.
pub fn load_color(percent: u32, theme: &Theme) -> (c: Color)
    ensures
        c == load_tone(percent, theme.colors),
{
    if percent >= 90 {
        theme.colors.critical
    } else if percent >= 75 {
        theme.colors.warning
    } else {
        theme.colors.text_primary
    }
}

/// Colour for a charge percentage.
pub fn charge_color(percent: u32, theme: &Theme) -> (c: Color)
    ensures
        c == charge_tone(percent, theme.colors),
{
    if percent <= 20 {
        theme.colors.critical
    } else if percent <= 50 {
        theme.colors.warning
    } else {
        theme.colors.ok
    }
}

/// The text of a value nobody has.
pub open spec fn dash() -> Seq<char> {
    seq![EM_DASH]
}

/// A number and its unit.
pub open spec fn count_text(n: nat, unit: Seq<char>) -> Seq<char> {
    spaced_text(decimal(n), unit)
}

/// A whole number that may be below zero.
pub open spec fn whole_text(n: int) -> Seq<char> {
    sign_of(n) + decimal(magnitude(n))
}

/// A number of tenths that may be below zero, with one decimal.
pub open spec fn tenths_text(n: int) -> Seq<char> {
    sign_of(n) + decimal(magnitude(n) / 10) + seq!['.', digit_char(magnitude(n) % 10)]
}

/// A range and its unit.
pub open spec fn range_text(low: Seq<char>, high: Seq<char>, unit: Seq<char>) -> Seq<char> {
    spaced_text(low + seq![EN_DASH] + high, unit)
}

/// The rated power: volt-amperes first, as the unit is labelled and sold.
pub open spec fn nameplate_text(
    va: Option<u32>,
    w: Option<u32>,
    volt_amp: Seq<char>,
    watt: Seq<char>,
) -> Option<Seq<char>> {
    match (va, w) {
        (Some(a), Some(b)) => Some(
            count_text(a as nat, volt_amp) + seq![' ', '/', ' '] + count_text(b as nat, watt),
        ),
        (Some(a), None) => Some(count_text(a as nat, volt_amp)),
        (None, Some(b)) => Some(count_text(b as nat, watt)),
        (None, None) => None,
    }
}

/// A measurement row: the value in its colour, or a dash in the secondary one
/// when the field did not read.
pub open spec fn value_row(
    label: Seq<char>,
    value: Option<Seq<char>>,
    color: Color,
    c: Colors,
) -> RowView {
    RowView::Pair {
        label,
        value: match value {
            Some(text) => text,
            None => dash(),
        },
        color: if value is Some {
            color
        } else {
            c.text_secondary
        },
    }
}

/// A number with its unit, if it read.
pub open spec fn count_of(n: Option<u32>, unit: Seq<char>) -> Option<Seq<char>> {
    match n {
        Some(v) => Some(count_text(v as nat, unit)),
        None => None,
    }
}

/// A voltage in whole volts with its unit, if it read.
pub open spec fn volts_of(n: Option<i32>, unit: Seq<char>) -> Option<Seq<char>> {
    match n {
        Some(v) => Some(spaced_text(whole_text(v as int), unit)),
        None => None,
    }
}

/// A voltage in tenths of a volt with its unit, if it read.
pub open spec fn tenths_of(n: Option<i32>, unit: Seq<char>) -> Option<Seq<char>> {
    match n {
        Some(v) => Some(spaced_text(tenths_text(v as int), unit)),
        None => None,
    }
}

/// A time in minutes, if it read.
pub open spec fn minutes_of(n: Option<u32>, unit: Seq<char>) -> Option<Seq<char>> {
    match n {
        Some(v) => Some(runtime_text(v as nat, unit)),
        None => None,
    }
}

/// The title line, with Settings right-aligned.
pub open spec fn title_rows(l: Locale) -> Seq<RowView> {
    seq![
        RowView::TitleButton {
            title: l.text(Key::PanelTitle),
            button: l.text(Key::MenuSettings),
            id: HotspotId(HOT_SETTINGS),
        },
        RowView::Space(Gap::Half),
    ]
}

/// The warnings, above everything else, and a gap under them.
pub open spec fn warning_rows(warnings: Seq<Seq<char>>, c: Colors) -> Seq<RowView> {
    if warnings.len() == 0 {
        seq![]
    } else {
        Seq::new(
            warnings.len(),
            |i: int| RowView::Wrapped { text: warnings[i], color: c.warning },
        ).push(RowView::Space(Gap::Single))
    }
}

/// What is shown when there is no device.
pub open spec fn absent_rows(l: Locale, c: Colors) -> Seq<RowView> {
    seq![
        RowView::Space(Gap::Single),
        RowView::Wrapped { text: l.text(Key::StateDisconnected), color: c.critical },
        RowView::Space(Gap::Half),
        RowView::Wrapped { text: l.text(Key::ErrorDeviceNotFound), color: c.text_primary },
        RowView::Space(Gap::Half),
        RowView::Wrapped { text: l.text(Key::ErrorDeviceNotFoundHint), color: c.text_secondary },
    ]
}

/// The transfer window, as one row: both bounds must read for it to mean
/// anything.
pub open spec fn window_of(r: Reading, volt: Seq<char>) -> Option<Seq<char>> {
    match (r.low_transfer_voltage, r.high_transfer_voltage) {
        (Some(low), Some(high)) => Some(
            range_text(whole_text(low as int), whole_text(high as int), volt),
        ),
        _ => None,
    }
}

/// The input group.
pub open spec fn input_rows(l: Locale, c: Colors, r: Reading) -> Seq<RowView> {
    let volt = l.text(Key::UnitVolt);
    seq![
        RowView::Header(l.text(Key::PanelGroupInput)),
        value_row(
            l.text(Key::PanelInputVoltage),
            volts_of(r.input_voltage, volt),
            c.text_primary,
            c,
        ),
        value_row(
            l.text(Key::PanelInputNominal),
            volts_of(r.input_nominal_voltage, volt),
            c.text_primary,
            c,
        ),
        value_row(l.text(Key::PanelTransferWindow), window_of(r, volt), c.text_primary, c),
    ]
}

/// The output group.
pub open spec fn output_rows(l: Locale, c: Colors, r: Reading) -> Seq<RowView> {
    seq![
        RowView::Header(l.text(Key::PanelGroupOutput)),
        value_row(
            l.text(Key::PanelOutputVoltage),
            volts_of(r.output_voltage, l.text(Key::UnitVolt)),
            c.text_primary,
            c,
        ),
        value_row(
            l.text(Key::PanelLoadPercent),
            count_of(r.load_percent, l.text(Key::UnitPercent)),
            match r.load_percent {
                Some(p) => load_tone(p, c),
                None => c.text_primary,
            },
            c,
        ),
        value_row(
            l.text(Key::PanelLoadWatts),
            count_of(r.load_watts, l.text(Key::UnitWatt)),
            c.text_primary,
            c,
        ),
        value_row(
            l.text(Key::PanelLoadVa),
            count_of(r.load_va, l.text(Key::UnitVoltAmp)),
            c.text_primary,
            c,
        ),
    ]
}

/// The name of the charge state; none while probing or while no flag of the
/// three has read. Three flags read as clear are a genuine idle.
pub open spec fn charge_state_of(r: Reading, probing: bool) -> Option<Key> {
    if probing || (r.fully_charged is None && r.charging is None && r.discharging is None) {
        None
    } else if raised(r.fully_charged) {
        Some(Key::StateFullyCharged)
    } else if raised(r.charging) {
        Some(Key::StateCharging)
    } else if raised(r.discharging) {
        Some(Key::StateDischarging)
    } else {
        Some(Key::StateIdle)
    }
}

/// The text of an optional key.
pub open spec fn named(l: Locale, key: Option<Key>) -> Option<Seq<char>> {
    match key {
        Some(k) => Some(l.text(k)),
        None => None,
    }
}

/// The battery group.
pub open spec fn battery_rows(l: Locale, c: Colors, r: Reading, probing: bool) -> Seq<RowView> {
    let volt = l.text(Key::UnitVolt);
    let pct = l.text(Key::UnitPercent);
    let min = l.text(Key::UnitMinutes);
    seq![
        RowView::Header(l.text(Key::PanelGroupBattery)),
        value_row(
            l.text(Key::PanelCharge),
            count_of(r.charge_percent, pct),
            match r.charge_percent {
                Some(p) => charge_tone(p, c),
                None => c.text_primary,
            },
            c,
        ),
        value_row(
            l.text(Key::PanelBatteryVoltage),
            tenths_of(r.battery_decivolts, volt),
            c.text_primary,
            c,
        ),
        value_row(
            l.text(Key::PanelBatteryNominal),
            tenths_of(r.battery_nominal_decivolts, volt),
            c.text_primary,
            c,
        ),
        value_row(
            l.text(Key::PanelRuntime),
            minutes_of(r.runtime_seconds, min),
            c.text_primary,
            c,
        ),
        value_row(
            l.text(Key::PanelChargeState),
            named(l, charge_state_of(r, probing)),
            c.text_primary,
            c,
        ),
        value_row(
            l.text(Key::PanelCapacityLimit),
            count_of(r.capacity_limit_percent, pct),
            c.text_secondary,
            c,
        ),
        value_row(
            l.text(Key::PanelWarningCapacity),
            count_of(r.warning_capacity_percent, pct),
            c.text_secondary,
            c,
        ),
        value_row(
            l.text(Key::PanelRuntimeLimit),
            minutes_of(r.runtime_limit_seconds, min),
            c.text_secondary,
            c,
        ),
    ]
}

/// The name of the power state; none while probing or while the flag has not
/// read: an unread mains flag is not an outage.
pub open spec fn power_state_of(r: Reading, probing: bool) -> Option<Key> {
    match r.ac_present {
        Some(on) => if probing {
            None
        } else if on {
            Some(Key::StateOnline)
        } else {
            Some(Key::StateOnBattery)
        },
        None => None,
    }
}

/// The status group, without its faults.
pub open spec fn status_rows(l: Locale, c: Colors, r: Reading, probing: bool) -> Seq<RowView> {
    seq![
        RowView::Header(l.text(Key::PanelGroupStatus)),
        value_row(
            l.text(Key::PanelState),
            named(l, power_state_of(r, probing)),
            match power_state_of(r, probing) {
                Some(Key::StateOnline) => c.ok,
                Some(_) => c.warning,
                None => c.text_primary,
            },
            c,
        ),
    ]
}

/// One line of the status group, if its flag is raised.
pub open spec fn flag_row(flag: Option<bool>, text: Seq<char>, color: Color) -> Seq<RowView> {
    if raised(flag) {
        seq![RowView::Notice { text, color }]
    } else {
        seq![]
    }
}

/// The flags that are raised, one line each: the faults in the critical colour,
/// and the voltage boost, which is the device doing its job, in the warning
/// one.
pub open spec fn fault_rows(l: Locale, c: Colors, r: Reading) -> Seq<RowView> {
    flag_row(r.below_capacity_limit, l.text(Key::FlagLowBattery), c.critical) + flag_row(
        r.runtime_limit_expired,
        l.text(Key::FlagRuntimeLimitExpired),
        c.critical,
    ) + flag_row(r.internal_failure, l.text(Key::FlagInternalFailure), c.critical) + flag_row(
        r.overload,
        l.text(Key::FlagOverload),
        c.critical,
    ) + flag_row(
        r.voltage_out_of_range,
        l.text(Key::FlagVoltageOutOfRange),
        c.critical,
    ) + flag_row(
        r.frequency_out_of_range,
        l.text(Key::FlagFrequencyOutOfRange),
        c.critical,
    ) + flag_row(r.boost, l.text(Key::FlagBoost), c.warning)
}

/// One identity row; none without an identity at all.
pub open spec fn identity_row(
    known: bool,
    label: Seq<char>,
    value: Option<Seq<char>>,
    c: Colors,
) -> Seq<RowView> {
    if known {
        seq![value_row(label, value, c.text_primary, c)]
    } else {
        seq![]
    }
}

/// The buzzer row: a dash when nothing was ever observed, a plain pair when the
/// mode has no action, and otherwise a button that stays, greyed, through an
/// observation that failed and through a self-test.
pub open spec fn beeper_row(
    l: Locale,
    c: Colors,
    beeper: BeeperView,
    self_test_running: bool,
) -> RowView {
    match beeper {
        BeeperView::Unknown => value_row(l.text(Key::PanelBeeper), None, c.text_secondary, c),
        BeeperView::Current(mode) => mode_row(l, c, mode, true, self_test_running),
        BeeperView::Stale(mode) => mode_row(l, c, mode, false, self_test_running),
    }
}

/// The buzzer row for a mode that is current or was.
pub open spec fn mode_row(
    l: Locale,
    c: Colors,
    mode: Beeper,
    current: bool,
    self_test_running: bool,
) -> RowView {
    let value = if current {
        l.text(mode.name)
    } else {
        dash()
    };
    match mode.action {
        Some(action) => RowView::LabeledButton {
            label: l.text(Key::PanelBeeper),
            value,
            color: c.text_primary,
            button: l.text(action),
            id: HotspotId(HOT_BEEPER),
            enabled: current && !self_test_running,
        },
        None => RowView::Pair { label: l.text(Key::PanelBeeper), value, color: c.text_primary },
    }
}

/// Whether a self-test may be asked for: every condition confirmed, none
/// assumed.
pub open spec fn test_is_safe(r: Reading, presence: Presence) -> bool {
    &&& presence is Open
    &&& r.ac_present == Some(true)
    &&& r.discharging == Some(false)
    &&& r.charge_percent matches Some(p) && p >= MIN_CHARGE_PERCENT
}

/// Whether a self-test is under way: one this utility asked for, or one the
/// device reports.
pub open spec fn is_testing(r: Reading, self_test_running: bool) -> bool {
    self_test_running || r.test_result == Some(TestResult::InProgress)
}

/// The last-test row with the self-test button; a plain dash while probing.
pub open spec fn self_test_row(
    l: Locale,
    c: Colors,
    r: Reading,
    presence: Presence,
    probing: bool,
    self_test_running: bool,
) -> RowView {
    if probing {
        value_row(l.text(Key::PanelLastTest), None, c.text_secondary, c)
    } else {
        RowView::LabeledButton {
            label: l.text(Key::PanelLastTest),
            value: match r.test_result {
                Some(result) => l.text(result.title()),
                None => dash(),
            },
            color: c.text_primary,
            button: l.text(Key::PanelSelfTest),
            id: HotspotId(HOT_SELFTEST),
            enabled: test_is_safe(r, presence) && !is_testing(r, self_test_running),
        }
    }
}

/// The device group: identity, nameplate, buzzer and self-test, in the order
/// that keeps the two buttons apart.
pub open spec fn device_rows(l: Locale, c: Colors, data: PanelView, r: Reading) -> Seq<RowView> {
    let known = data.identity is Some;
    let id = match data.identity {
        Some(i) => i,
        None => IdentityView::blank(),
    };
    seq![RowView::Header(l.text(Key::PanelGroupDevice))] + identity_row(
        known,
        l.text(Key::PanelModel),
        id.model,
        c,
    ) + identity_row(known, l.text(Key::PanelFirmware), id.firmware, c) + identity_row(
        known,
        l.text(Key::PanelSerial),
        id.serial,
        c,
    ) + seq![
        value_row(
            l.text(Key::PanelNominalPower),
            nameplate_text(
                r.nominal_va,
                r.nominal_power_w,
                l.text(Key::UnitVoltAmp),
                l.text(Key::UnitWatt),
            ),
            c.text_primary,
            c,
        ),
    ] + identity_row(known, l.text(Key::PanelManufacturer), id.manufacturer, c) + seq![
        beeper_row(l, c, data.beeper, data.self_test_running),
    ] + identity_row(known, l.text(Key::PanelChemistry), id.chemistry, c) + seq![
        self_test_row(l, c, r, data.presence, data.probing, data.self_test_running),
    ]
}

/// The panel below its title and warnings, over a reading.
pub open spec fn reading_rows(l: Locale, c: Colors, data: PanelView, r: Reading) -> Seq<RowView> {
    input_rows(l, c, r) + output_rows(l, c, r) + battery_rows(l, c, r, data.probing) + status_rows(
        l,
        c,
        r,
        data.probing,
    ) + fault_rows(l, c, r) + device_rows(l, c, data, r)
}

/// The data the panel is drawn from before anything has answered.
pub open spec fn probe() -> PanelView {
    PanelView {
        reading: Some(Reading::unread()),
        identity: Some(IdentityView::blank()),
        presence: Presence::Open,
        beeper: BeeperView::Unknown,
        warnings: seq![],
        probing: true,
        self_test_running: false,
    }
}

/// The panel's shape with every value still unknown.
pub open spec fn skeleton_rows(l: Locale, c: Colors) -> Seq<RowView> {
    reading_rows(l, c, probe(), Reading::unread())
}

/// The rows of the panel.
pub open spec fn panel_rows(l: Locale, c: Colors, data: PanelView) -> Seq<RowView> {
    title_rows(l) + warning_rows(data.warnings, c) + (if data.connecting() {
        skeleton_rows(l, c)
    } else if data.presence is Absent {
        absent_rows(l, c)
    } else {
        reading_rows(l, c, data, data.reading->0)
    })
}

fn dash_text() -> (text: String)
    ensures
        text@ == dash(),
{
    let mut text = String::new();
    text.push(EM_DASH);
    proof {
        assert(text@ =~= dash());
    }
    text
}

fn count(n: Option<u32>, unit: &str) -> (text: Option<String>)
    ensures
        text_view(text) == count_of(n, unit@),
{
    match n {
        Some(v) => {
            let number = decimal_text(v);
            Some(spaced(number.as_str(), unit))
        },
        None => None,
    }
}

fn whole(n: i32) -> (text: String)
    ensures
        text@ == whole_text(n as int),
{
    let mut text = sign_text(n);
    let digits = decimal_text(without_sign(n));
    text.append(digits.as_str());
    text
}

fn volts(n: Option<i32>, unit: &str) -> (text: Option<String>)
    ensures
        text_view(text) == volts_of(n, unit@),
{
    match n {
        Some(v) => {
            let number = whole(v);
            Some(spaced(number.as_str(), unit))
        },
        None => None,
    }
}

fn tenths(n: Option<i32>, unit: &str) -> (text: Option<String>)
    ensures
        text_view(text) == tenths_of(n, unit@),
{
    match n {
        Some(v) => {
            let bare: u32 = without_sign(v);
            let mut number = sign_text(v);
            let digits = decimal_text(bare / 10);
            number.append(digits.as_str());
            number.push('.');
            number.push(digit(bare % 10));
            proof {
                assert(number@ =~= tenths_text(v as int));
            }
            Some(spaced(number.as_str(), unit))
        },
        None => None,
    }
}

fn minutes(n: Option<u32>, unit: &str) -> (text: Option<String>)
    ensures
        text_view(text) == minutes_of(n, unit@),
{
    match n {
        Some(v) => Some(format_runtime(v, unit)),
        None => None,
    }
}

fn ranged(low: &str, high: &str, unit: &str) -> (text: String)
    ensures
        text@ == range_text(low@, high@, unit@),
{
    let mut numbers = low.to_owned();
    numbers.push(EN_DASH);
    numbers.append(high);
    proof {
        assert(numbers@ =~= low@ + seq![EN_DASH] + high@);
    }
    spaced(numbers.as_str(), unit)
}

fn nameplate(va: Option<u32>, w: Option<u32>, volt_amp: &str, watt: &str) -> (text: Option<String>)
    ensures
        text_view(text) == nameplate_text(va, w, volt_amp@, watt@),
{
    match (va, w) {
        (Some(a), Some(b)) => {
            let first = decimal_text(a);
            let second = decimal_text(b);
            let mut text = spaced(first.as_str(), volt_amp);
            let ghost head = text@;
            text.push(' ');
            text.push('/');
            text.push(' ');
            proof {
                assert(text@ =~= head + seq![' ', '/', ' ']);
            }
            text.append(spaced(second.as_str(), watt).as_str());
            Some(text)
        },
        (Some(_), None) => count(va, volt_amp),
        (None, Some(_)) => count(w, watt),
        (None, None) => None,
    }
}

fn own_key(locale: &Locale, key: Option<Key>) -> (text: Option<String>)
    ensures
        text_view(text) == named(*locale, key),
{
    match key {
        Some(k) => Some(locale.own(k)),
        None => None,
    }
}

/// A measurement row: the value in `color`, or an em dash in the secondary
/// colour when the field did not read.
fn measured(theme: &Theme, label: &str, value: Option<String>, color: Color) -> (row: Row)
    ensures
        row@ == value_row(label@, text_view(value), color, theme.colors),
{
    match value {
        Some(text) => Row::Pair { label: label.to_owned(), value: text, color },
        None => Row::Pair {
            label: label.to_owned(),
            value: dash_text(),
            color: theme.colors.text_secondary,
        },
    }
}

/// A row for a field that is absent: a dash in the secondary colour.
fn dash_row(label: &str, theme: &Theme) -> (row: Row)
    ensures
        row@ == value_row(label@, None, theme.colors.text_secondary, theme.colors),
{
    measured(theme, label, None, theme.colors.text_secondary)
}

/// The title line, with Settings right-aligned. Exactly one per panel.
fn push_title(rows: &mut Vec<Row>, locale: &Locale)
    ensures
        rows_view(final(rows)@) == rows_view(old(rows)@) + title_rows(*locale),
{
    broadcast use rows_view_push;

    let ghost before = rows_view(rows@);
    rows.push(
        Row::TitleButton {
            title: locale.own(Key::PanelTitle),
            button: locale.own(Key::MenuSettings),
            id: HotspotId(HOT_SETTINGS),
        },
    );
    rows.push(Row::Space(Gap::Half));
    proof {
        assert(rows_view(rows@) =~= before + title_rows(*locale));
    }
}

fn push_warnings(rows: &mut Vec<Row>, theme: &Theme, warnings: &Vec<String>)
    ensures
        rows_view(final(rows)@) == rows_view(old(rows)@) + warning_rows(
            Seq::new(warnings@.len(), |i: int| warnings@[i]@),
            theme.colors,
        ),
{
    broadcast use rows_view_push;

    let ghost before = rows_view(rows@);
    let ghost texts = Seq::new(warnings@.len(), |i: int| warnings@[i]@);
    if warnings.len() == 0 {
        proof {
            assert(rows_view(rows@) =~= before + warning_rows(texts, theme.colors));
        }
        return;
    }
    let ghost all = warning_rows(texts, theme.colors);
    let mut i: usize = 0;
    proof {
        assert(rows_view(rows@) =~= before + all.take(0));
    }
    while i < warnings.len()
        invariant
            i <= warnings@.len(),
            warnings@.len() > 0,
            texts == Seq::new(warnings@.len(), |k: int| warnings@[k]@),
            all == warning_rows(texts, theme.colors),
            rows_view(rows@) == before + all.take(i as int),
        decreases warnings.len() - i,
    {
        broadcast use rows_view_push;

        rows.push(Row::Wrapped { text: warnings[i].clone(), color: theme.colors.warning });
        i = i + 1;
        proof {
            assert(rows_view(rows@) =~= before + all.take(i as int));
        }
    }
    rows.push(Row::Space(Gap::Single));
    proof {
        assert(rows_view(rows@) =~= before + all);
    }
}

fn push_absent(rows: &mut Vec<Row>, locale: &Locale, theme: &Theme)
    ensures
        rows_view(final(rows)@) == rows_view(old(rows)@) + absent_rows(*locale, theme.colors),
{
    broadcast use rows_view_push;

    let ghost before = rows_view(rows@);
    rows.push(Row::Space(Gap::Single));
    rows.push(
        Row::Wrapped { text: locale.own(Key::StateDisconnected), color: theme.colors.critical },
    );
    rows.push(Row::Space(Gap::Half));
    rows.push(
        Row::Wrapped {
            text: locale.own(Key::ErrorDeviceNotFound),
            color: theme.colors.text_primary,
        },
    );
    rows.push(Row::Space(Gap::Half));
    rows.push(
        Row::Wrapped {
            text: locale.own(Key::ErrorDeviceNotFoundHint),
            color: theme.colors.text_secondary,
        },
    );
    proof {
        assert(rows_view(rows@) =~= before + absent_rows(*locale, theme.colors));
    }
}

/// The input group: mains voltage and the transfer window.
fn push_input_rows(rows: &mut Vec<Row>, locale: &Locale, theme: &Theme, r: &Reading)
    ensures
        rows_view(final(rows)@) == rows_view(old(rows)@) + input_rows(*locale, theme.colors, *r),
{
    broadcast use rows_view_push;

    let ghost before = rows_view(rows@);
    let volt = locale.t(Key::UnitVolt);
    let text = theme.colors.text_primary;
    rows.push(Row::Header(locale.own(Key::PanelGroupInput)));
    rows.push(
        measured(theme, locale.t(Key::PanelInputVoltage), volts(r.input_voltage, volt), text),
    );
    rows.push(
        measured(
            theme,
            locale.t(Key::PanelInputNominal),
            volts(r.input_nominal_voltage, volt),
            text,
        ),
    );
    let window: Option<String> = match (r.low_transfer_voltage, r.high_transfer_voltage) {
        (Some(low), Some(high)) => {
            let from = whole(low);
            let to = whole(high);
            Some(ranged(from.as_str(), to.as_str(), volt))
        },
        _ => None,
    };
    rows.push(measured(theme, locale.t(Key::PanelTransferWindow), window, text));
    proof {
        assert(rows_view(rows@) =~= before + input_rows(*locale, theme.colors, *r));
    }
}

/// The output group: what the device is delivering.
fn push_output_rows(rows: &mut Vec<Row>, locale: &Locale, theme: &Theme, r: &Reading)
    ensures
        rows_view(final(rows)@) == rows_view(old(rows)@) + output_rows(*locale, theme.colors, *r),
{
    broadcast use rows_view_push;

    let ghost before = rows_view(rows@);
    let text = theme.colors.text_primary;
    rows.push(Row::Header(locale.own(Key::PanelGroupOutput)));
    rows.push(
        measured(
            theme,
            locale.t(Key::PanelOutputVoltage),
            volts(r.output_voltage, locale.t(Key::UnitVolt)),
            text,
        ),
    );
    let load = match r.load_percent {
        Some(p) => load_color(p, theme),
        None => text,
    };
    rows.push(
        measured(
            theme,
            locale.t(Key::PanelLoadPercent),
            count(r.load_percent, locale.t(Key::UnitPercent)),
            load,
        ),
    );
    rows.push(
        measured(
            theme,
            locale.t(Key::PanelLoadWatts),
            count(r.load_watts, locale.t(Key::UnitWatt)),
            text,
        ),
    );
    // Apparent power beside active power: the gap between the two is the power
    // factor of the connected load.
    rows.push(
        measured(
            theme,
            locale.t(Key::PanelLoadVa),
            count(r.load_va, locale.t(Key::UnitVoltAmp)),
            text,
        ),
    );
    proof {
        assert(rows_view(rows@) =~= before + output_rows(*locale, theme.colors, *r));
    }
}

fn charge_state(r: &Reading, probing: bool) -> (k: Option<Key>)
    ensures
        k == charge_state_of(*r, probing),
{
    if probing || (r.fully_charged.is_none() && r.charging.is_none() && r.discharging.is_none()) {
        None
    } else if is_raised(r.fully_charged) {
        Some(Key::StateFullyCharged)
    } else if is_raised(r.charging) {
        Some(Key::StateCharging)
    } else if is_raised(r.discharging) {
        Some(Key::StateDischarging)
    } else {
        Some(Key::StateIdle)
    }
}

/// The battery group: charge, runtime and the limits set on them.
fn push_battery_rows(
    rows: &mut Vec<Row>,
    locale: &Locale,
    theme: &Theme,
    probing: bool,
    r: &Reading,
)
    ensures
        rows_view(final(rows)@) == rows_view(old(rows)@) + battery_rows(
            *locale,
            theme.colors,
            *r,
            probing,
        ),
{
    broadcast use rows_view_push;

    let ghost before = rows_view(rows@);
    let volt = locale.t(Key::UnitVolt);
    let pct = locale.t(Key::UnitPercent);
    let min = locale.t(Key::UnitMinutes);
    let text = theme.colors.text_primary;
    let quiet = theme.colors.text_secondary;
    rows.push(Row::Header(locale.own(Key::PanelGroupBattery)));
    let charge = match r.charge_percent {
        Some(p) => charge_color(p, theme),
        None => text,
    };
    rows.push(measured(theme, locale.t(Key::PanelCharge), count(r.charge_percent, pct), charge));
    rows.push(
        measured(theme, locale.t(Key::PanelBatteryVoltage), tenths(r.battery_decivolts, volt), text),
    );
    rows.push(
        measured(
            theme,
            locale.t(Key::PanelBatteryNominal),
            tenths(r.battery_nominal_decivolts, volt),
            text,
        ),
    );
    rows.push(measured(theme, locale.t(Key::PanelRuntime), minutes(r.runtime_seconds, min), text));
    rows.push(
        measured(
            theme,
            locale.t(Key::PanelChargeState),
            own_key(locale, charge_state(r, probing)),
            text,
        ),
    );
    // Thresholds: what the device's own warning flags fire against.
    rows.push(
        measured(
            theme,
            locale.t(Key::PanelCapacityLimit),
            count(r.capacity_limit_percent, pct),
            quiet,
        ),
    );
    rows.push(
        measured(
            theme,
            locale.t(Key::PanelWarningCapacity),
            count(r.warning_capacity_percent, pct),
            quiet,
        ),
    );
    rows.push(
        measured(theme, locale.t(Key::PanelRuntimeLimit), minutes(r.runtime_limit_seconds, min), quiet),
    );
    proof {
        assert(rows_view(rows@) =~= before + battery_rows(*locale, theme.colors, *r, probing));
    }
}

/// The status group, without its faults.
fn push_status_rows(
    rows: &mut Vec<Row>,
    locale: &Locale,
    theme: &Theme,
    probing: bool,
    r: &Reading,
)
    ensures
        rows_view(final(rows)@) == rows_view(old(rows)@) + status_rows(
            *locale,
            theme.colors,
            *r,
            probing,
        ),
{
    broadcast use rows_view_push;

    let ghost before = rows_view(rows@);
    rows.push(Row::Header(locale.own(Key::PanelGroupStatus)));
    // An unread mains flag must not be drawn as an outage.
    let (key, color): (Option<Key>, Color) = match r.ac_present {
        Some(on) => if probing {
            (None, theme.colors.text_primary)
        } else if on {
            (Some(Key::StateOnline), theme.colors.ok)
        } else {
            (Some(Key::StateOnBattery), theme.colors.warning)
        },
        None => (None, theme.colors.text_primary),
    };
    rows.push(measured(theme, locale.t(Key::PanelState), own_key(locale, key), color));
    proof {
        assert(rows_view(rows@) =~= before + status_rows(*locale, theme.colors, *r, probing));
    }
}

fn push_flag(rows: &mut Vec<Row>, flag: Option<bool>, text: &str, color: Color)
    ensures
        rows_view(final(rows)@) == rows_view(old(rows)@) + flag_row(flag, text@, color),
{
    broadcast use rows_view_push;

    let ghost before = rows_view(rows@);
    if is_raised(flag) {
        rows.push(Row::Notice { text: text.to_owned(), color });
    }
    proof {
        assert(rows_view(rows@) =~= before + flag_row(flag, text@, color));
    }
}

/// The flags that are set, one notice each.
fn push_fault_rows(rows: &mut Vec<Row>, locale: &Locale, theme: &Theme, r: &Reading)
    ensures
        rows_view(final(rows)@) == rows_view(old(rows)@) + fault_rows(*locale, theme.colors, *r),
{
    let ghost before = rows_view(rows@);
    let red = theme.colors.critical;
    push_flag(rows, r.below_capacity_limit, locale.t(Key::FlagLowBattery), red);
    push_flag(rows, r.runtime_limit_expired, locale.t(Key::FlagRuntimeLimitExpired), red);
    push_flag(rows, r.internal_failure, locale.t(Key::FlagInternalFailure), red);
    push_flag(rows, r.overload, locale.t(Key::FlagOverload), red);
    push_flag(rows, r.voltage_out_of_range, locale.t(Key::FlagVoltageOutOfRange), red);
    push_flag(rows, r.frequency_out_of_range, locale.t(Key::FlagFrequencyOutOfRange), red);
    // The device correcting low mains needs no action and is no fault.
    push_flag(rows, r.boost, locale.t(Key::FlagBoost), theme.colors.warning);
    proof {
        assert(rows_view(rows@) =~= before + fault_rows(*locale, theme.colors, *r));
    }
}

fn own_text(text: &Option<String>) -> (r: Option<String>)
    ensures
        text_view(r) == text_view(*text),
{
    match text {
        Some(t) => Some(t.clone()),
        None => None,
    }
}

/// Pushes one identity row: the value when the device reports it, a dash when
/// it does not.
fn push_identity(
    rows: &mut Vec<Row>,
    locale: &Locale,
    theme: &Theme,
    key: Key,
    value: &Option<String>,
)
    ensures
        rows_view(final(rows)@) == rows_view(old(rows)@) + identity_row(
            true,
            locale.text(key),
            text_view(*value),
            theme.colors,
        ),
{
    broadcast use rows_view_push;

    let ghost before = rows_view(rows@);
    rows.push(measured(theme, locale.t(key), own_text(value), theme.colors.text_primary));
    proof {
        assert(rows_view(rows@) =~= before + identity_row(
            true,
            locale.text(key),
            text_view(*value),
            theme.colors,
        ));
    }
}

/// The row of a buzzer mode that is current or was.
fn mode_line(
    locale: &Locale,
    theme: &Theme,
    mode: Beeper,
    current: bool,
    self_test_running: bool,
) -> (row: Row)
    ensures
        row@ == mode_row(*locale, theme.colors, mode, current, self_test_running),
{
    // The value reports an observation and nothing else, so a failed one is a
    // dash though the caption still knows what to say.
    let value = if current {
        locale.own(mode.name)
    } else {
        dash_text()
    };
    match mode.action {
        Some(action) => Row::LabeledButton {
            label: locale.own(Key::PanelBeeper),
            value,
            color: theme.colors.text_primary,
            button: locale.own(action),
            id: HotspotId(HOT_BEEPER),
            enabled: current && !self_test_running,
        },
        None => Row::Pair {
            label: locale.own(Key::PanelBeeper),
            value,
            color: theme.colors.text_primary,
        },
    }
}

/// Pushes the buzzer row.
pub fn push_beeper_row(
    rows: &mut Vec<Row>,
    locale: &Locale,
    theme: &Theme,
    beeper: BeeperView,
    self_test_running: bool,
)
    ensures
        rows_view(final(rows)@) == rows_view(old(rows)@).push(
            beeper_row(*locale, theme.colors, beeper, self_test_running),
        ),
{
    broadcast use rows_view_push;

    let row = match beeper {
        BeeperView::Unknown => dash_row(locale.t(Key::PanelBeeper), theme),
        BeeperView::Current(mode) => mode_line(locale, theme, mode, true, self_test_running),
        BeeperView::Stale(mode) => mode_line(locale, theme, mode, false, self_test_running),
    };
    rows.push(row);
}

/// Pushes the last-test row with the self-test button.
fn push_self_test_row(
    rows: &mut Vec<Row>,
    locale: &Locale,
    theme: &Theme,
    presence: Presence,
    probing: bool,
    self_test_running: bool,
    r: &Reading,
)
    ensures
        rows_view(final(rows)@) == rows_view(old(rows)@).push(
            self_test_row(*locale, theme.colors, *r, presence, probing, self_test_running),
        ),
{
    broadcast use rows_view_push;

    // While probing there is no reading to judge safety from.
    if probing {
        rows.push(dash_row(locale.t(Key::PanelLastTest), theme));
        return;
    }
    let testing: bool = self_test_running || match r.test_result {
        Some(TestResult::InProgress) => true,
        _ => false,
    };
    let on_mains: bool = is_raised(r.ac_present);
    let at_rest: bool = match r.discharging {
        Some(on) => !on,
        None => false,
    };
    let charged: bool = match r.charge_percent {
        Some(p) => p >= MIN_CHARGE_PERCENT,
        None => false,
    };
    let open: bool = match presence {
        Presence::Open => true,
        _ => false,
    };
    let value = match r.test_result {
        Some(result) => locale.own(result.lang_key()),
        None => dash_text(),
    };
    rows.push(
        Row::LabeledButton {
            label: locale.own(Key::PanelLastTest),
            value,
            color: theme.colors.text_primary,
            button: locale.own(Key::PanelSelfTest),
            id: HotspotId(HOT_SELFTEST),
            enabled: open && on_mains && at_rest && charged && !testing,
        },
    );
}

/// The device group: identity strings, the nameplate figure, the buzzer control
/// and the self-test row.
#[verifier::spinoff_prover]
fn push_device_rows(
    rows: &mut Vec<Row>,
    locale: &Locale,
    theme: &Theme,
    data: &PanelData,
    r: &Reading,
)
    ensures
        rows_view(final(rows)@) == rows_view(old(rows)@) + device_rows(
            *locale,
            theme.colors,
            data@,
            *r,
        ),
{
    broadcast use rows_view_push;

    let ghost before = rows_view(rows@);
    rows.push(Row::Header(locale.own(Key::PanelGroupDevice)));
    match data.identity {
        Some(id) => {
            push_identity(rows, locale, theme, Key::PanelModel, &id.model);
            push_identity(rows, locale, theme, Key::PanelFirmware, &id.firmware);
            push_identity(rows, locale, theme, Key::PanelSerial, &id.serial);
        },
        None => {},
    }
    // Volt-amperes first, then watts, as the unit is labelled and sold.
    let power = nameplate(
        r.nominal_va,
        r.nominal_power_w,
        locale.t(Key::UnitVoltAmp),
        locale.t(Key::UnitWatt),
    );
    rows.push(
        measured(theme, locale.t(Key::PanelNominalPower), power, theme.colors.text_primary),
    );
    match data.identity {
        Some(id) => {
            push_identity(rows, locale, theme, Key::PanelManufacturer, &id.manufacturer);
        },
        None => {},
    }
    // Up here, so its button and the self-test button do not sit together.
    push_beeper_row(rows, locale, theme, data.beeper, data.self_test_running);
    match data.identity {
        Some(id) => {
            push_identity(rows, locale, theme, Key::PanelChemistry, &id.chemistry);
        },
        None => {},
    }
    push_self_test_row(
        rows,
        locale,
        theme,
        data.presence,
        data.probing,
        data.self_test_running,
        r,
    );
    proof {
        assert(rows_view(rows@) =~= before + device_rows(*locale, theme.colors, data@, *r));
    }
}

fn push_reading(
    rows: &mut Vec<Row>,
    locale: &Locale,
    theme: &Theme,
    data: &PanelData,
    r: &Reading,
)
    ensures
        rows_view(final(rows)@) == rows_view(old(rows)@) + reading_rows(
            *locale,
            theme.colors,
            data@,
            *r,
        ),
{
    let ghost before = rows_view(rows@);
    push_input_rows(rows, locale, theme, r);
    push_output_rows(rows, locale, theme, r);
    push_battery_rows(rows, locale, theme, data.probing, r);
    push_status_rows(rows, locale, theme, data.probing, r);
    push_fault_rows(rows, locale, theme, r);
    push_device_rows(rows, locale, theme, data, r);
    proof {
        assert(rows_view(rows@) =~= before + reading_rows(*locale, theme.colors, data@, *r));
    }
}

/// The panel's shape with every value still unknown: the ordinary panel over an
/// empty reading and an identity that reports nothing.
fn push_skeleton(rows: &mut Vec<Row>, locale: &Locale, theme: &Theme)
    ensures
        rows_view(final(rows)@) == rows_view(old(rows)@) + skeleton_rows(*locale, theme.colors),
{
    let placeholder = Reading::default();
    let identity = Identity::default();
    let data = PanelData {
        reading: Some(&placeholder),
        identity: Some(&identity),
        presence: Presence::Open,
        beeper: BeeperView::Unknown,
        warnings: Vec::new(),
        probing: true,
        self_test_running: false,
    };
    proof {
        assert(data@.warnings =~= seq![]);
        assert(data@ == probe());
    }
    push_reading(rows, locale, theme, &data, &placeholder);
}

/// Builds the rows for the current state.
pub fn build(locale: &Locale, theme: &Theme, data: &PanelData) -> (rows: Vec<Row>)
    ensures
        rows_view(rows@) == panel_rows(*locale, theme.colors, data@),
{
    let mut rows: Vec<Row> = Vec::new();
    proof {
        assert(rows_view(rows@) =~= seq![]);
    }
    // Title line with Settings in the top-right corner.
    push_title(&mut rows, locale);
    // Above everything else: a warning the user never sees is no warning.
    push_warnings(&mut rows, theme, &data.warnings);
    match data.shown() {
        Shown::Connecting => {
            push_skeleton(&mut rows, locale, theme);
        },
        Shown::Absent => {
            push_absent(&mut rows, locale, theme);
        },
        Shown::Live { reading } => {
            push_reading(&mut rows, locale, theme, data, reading);
        },
    }
    proof {
        assert(rows_view(rows@) =~= panel_rows(*locale, theme.colors, data@));
    }
    rows
}

/// How many digits the widest number any panel row is expected to show has.
pub const MAX_VALUE_DIGITS: usize = 4;

/// The widest number made of one digit.
pub open spec fn repeated(d: int) -> Seq<char> {
    let ch = digit_char(d as nat);
    seq![ch, ch, ch, ch]
}

/// A value-column sample: a pair with nothing in the label column.
pub open spec fn value_sample(value: Seq<char>, c: Colors) -> RowView {
    RowView::Pair { label: seq![], value, color: c.text_primary }
}

/// A sample of a row whose value shares its line with a button.
pub open spec fn button_sample(l: Locale, c: Colors, value: Key, action: Key, id: u32) -> RowView {
    RowView::LabeledButton {
        label: seq![],
        value: l.text(value),
        color: c.text_primary,
        button: l.text(action),
        id: HotspotId(id),
        enabled: false,
    }
}

/// The number samples of one unit: every digit, once alone and once as a range,
/// because which digit is widest is a property of the font.
pub open spec fn unit_samples(unit: Seq<char>, c: Colors) -> Seq<RowView> {
    Seq::new(
        20,
        |i: int|
            if i % 2 == 0 {
                value_sample(spaced_text(repeated(i / 2), unit), c)
            } else {
                value_sample(range_text(repeated(i / 2), repeated(i / 2), unit), c)
            },
    )
}

/// The number samples of every unit.
pub open spec fn number_samples(l: Locale, c: Colors) -> Seq<RowView> {
    unit_samples(l.text(Key::UnitVolt), c) + unit_samples(l.text(Key::UnitWatt), c) + unit_samples(
        l.text(Key::UnitVoltAmp),
        c,
    ) + unit_samples(l.text(Key::UnitPercent), c) + unit_samples(l.text(Key::UnitMinutes), c)
}

/// The words a value can be.
pub open spec fn word_samples(l: Locale, c: Colors) -> Seq<RowView> {
    seq![
        value_sample(l.text(Key::StateOnline), c),
        value_sample(l.text(Key::StateOnBattery), c),
        value_sample(l.text(Key::StateDisconnected), c),
        value_sample(l.text(Key::StateCharging), c),
        value_sample(l.text(Key::StateDischarging), c),
        value_sample(l.text(Key::StateFullyCharged), c),
        value_sample(l.text(Key::StateIdle), c),
        value_sample(l.text(Key::BeeperUnsupported), c),
    ]
}

/// The buzzer row in every mode with either action.
pub open spec fn beeper_samples(l: Locale, c: Colors) -> Seq<RowView> {
    seq![
        button_sample(l, c, Key::BeeperDisabled, Key::BeeperEnable, HOT_BEEPER),
        button_sample(l, c, Key::BeeperDisabled, Key::BeeperDisable, HOT_BEEPER),
        button_sample(l, c, Key::BeeperEnabled, Key::BeeperEnable, HOT_BEEPER),
        button_sample(l, c, Key::BeeperEnabled, Key::BeeperDisable, HOT_BEEPER),
        button_sample(l, c, Key::BeeperMuted, Key::BeeperEnable, HOT_BEEPER),
        button_sample(l, c, Key::BeeperMuted, Key::BeeperDisable, HOT_BEEPER),
        button_sample(l, c, Key::BeeperUnsupported, Key::BeeperEnable, HOT_BEEPER),
        button_sample(l, c, Key::BeeperUnsupported, Key::BeeperDisable, HOT_BEEPER),
    ]
}

/// The last-test row with every outcome.
pub open spec fn test_samples(l: Locale, c: Colors) -> Seq<RowView> {
    seq![
        button_sample(l, c, Key::TestTestPassed, Key::PanelSelfTest, HOT_SELFTEST),
        button_sample(l, c, Key::TestTestPassedWarning, Key::PanelSelfTest, HOT_SELFTEST),
        button_sample(l, c, Key::TestTestError, Key::PanelSelfTest, HOT_SELFTEST),
        button_sample(l, c, Key::TestTestAborted, Key::PanelSelfTest, HOT_SELFTEST),
        button_sample(l, c, Key::TestTestInProgress, Key::PanelSelfTest, HOT_SELFTEST),
        button_sample(l, c, Key::TestTestNotRun, Key::PanelSelfTest, HOT_SELFTEST),
        button_sample(l, c, Key::TestTestScheduled, Key::PanelSelfTest, HOT_SELFTEST),
        button_sample(l, c, Key::TestTestUnknown, Key::PanelSelfTest, HOT_SELFTEST),
    ]
}

/// The fault lines.
pub open spec fn fault_samples(l: Locale, c: Colors) -> Seq<RowView> {
    seq![
        RowView::Notice { text: l.text(Key::FlagLowBattery), color: c.critical },
        RowView::Notice { text: l.text(Key::FlagRuntimeLimitExpired), color: c.critical },
        RowView::Notice { text: l.text(Key::FlagInternalFailure), color: c.critical },
        RowView::Notice { text: l.text(Key::FlagOverload), color: c.critical },
        RowView::Notice { text: l.text(Key::FlagVoltageOutOfRange), color: c.critical },
        RowView::Notice { text: l.text(Key::FlagFrequencyOutOfRange), color: c.critical },
    ]
}

/// Rows the window measures but never draws: the widest value each row of the
/// panel is expected to take.
pub open spec fn sample_rows(l: Locale, c: Colors) -> Seq<RowView> {
    number_samples(l, c) + word_samples(l, c) + beeper_samples(l, c) + test_samples(l, c)
        + fault_samples(l, c)
}

/// One value-column sample: a pair with nothing in the label column.
fn sample(value: String, theme: &Theme) -> (row: Row)
    ensures
        row@ == value_sample(value@, theme.colors),
{
    let row = Row::Pair { label: String::new(), value, color: theme.colors.text_primary };
    proof {
        assert(row@->Pair_label =~= seq![]);
    }
    row
}

/// One sample for a row whose value shares its line with a button.
fn sample_button(locale: &Locale, theme: &Theme, value: Key, action: Key, id: u32) -> (row: Row)
    ensures
        row@ == button_sample(*locale, theme.colors, value, action, id),
{
    let row = Row::LabeledButton {
        label: String::new(),
        value: locale.own(value),
        color: theme.colors.text_primary,
        button: locale.own(action),
        id: HotspotId(id),
        enabled: false,
    };
    proof {
        assert(row@->LabeledButton_label =~= seq![]);
    }
    row
}

fn push_unit_samples(rows: &mut Vec<Row>, theme: &Theme, unit: &str)
    ensures
        rows_view(final(rows)@) == rows_view(old(rows)@) + unit_samples(unit@, theme.colors),
{
    let ghost before = rows_view(rows@);
    let ghost all = unit_samples(unit@, theme.colors);
    let mut d: u32 = 0;
    proof {
        assert(rows_view(rows@) =~= before + all.take(0));
    }
    while d < 10
        invariant
            d <= 10,
            all == unit_samples(unit@, theme.colors),
            rows_view(rows@) == before + all.take(2 * d),
        decreases 10 - d,
    {
        broadcast use rows_view_push;

        let ch: char = digit(d);
        let mut n = String::new();
        let mut k: usize = 0;
        while k < MAX_VALUE_DIGITS
            invariant
                k <= MAX_VALUE_DIGITS,
                n@ == Seq::new(k as nat, |i: int| ch),
            decreases MAX_VALUE_DIGITS - k,
        {
            n.push(ch);
            k = k + 1;
            proof {
                assert(n@ =~= Seq::new(k as nat, |i: int| ch));
            }
        }
        proof {
            assert(n@ =~= repeated(d as int));
        }
        rows.push(sample(spaced(n.as_str(), unit), theme));
        // The transfer window is the one row that shows two numbers.
        rows.push(sample(ranged(n.as_str(), n.as_str(), unit), theme));
        proof {
            assert(all[2 * d] == value_sample(
                spaced_text(repeated(d as int), unit@),
                theme.colors,
            ));
            assert(all[2 * d + 1] == value_sample(
                range_text(repeated(d as int), repeated(d as int), unit@),
                theme.colors,
            ));
            assert(rows_view(rows@) =~= before + all.take(2 * (d + 1)));
        }
        d = d + 1;
    }
    proof {
        assert(all.take(20) =~= all);
    }
}

fn push_words(rows: &mut Vec<Row>, locale: &Locale, theme: &Theme)
    ensures
        rows_view(final(rows)@) == rows_view(old(rows)@) + word_samples(*locale, theme.colors),
{
    broadcast use rows_view_push;

    let ghost before = rows_view(rows@);
    rows.push(sample(locale.own(Key::StateOnline), theme));
    rows.push(sample(locale.own(Key::StateOnBattery), theme));
    rows.push(sample(locale.own(Key::StateDisconnected), theme));
    rows.push(sample(locale.own(Key::StateCharging), theme));
    rows.push(sample(locale.own(Key::StateDischarging), theme));
    rows.push(sample(locale.own(Key::StateFullyCharged), theme));
    rows.push(sample(locale.own(Key::StateIdle), theme));
    rows.push(sample(locale.own(Key::BeeperUnsupported), theme));
    proof {
        assert(rows_view(rows@) =~= before + word_samples(*locale, theme.colors));
    }
}

fn push_beeper_samples(rows: &mut Vec<Row>, locale: &Locale, theme: &Theme)
    ensures
        rows_view(final(rows)@) == rows_view(old(rows)@) + beeper_samples(*locale, theme.colors),
{
    broadcast use rows_view_push;

    let ghost before = rows_view(rows@);
    let on = Key::BeeperEnable;
    let off = Key::BeeperDisable;
    rows.push(sample_button(locale, theme, Key::BeeperDisabled, on, HOT_BEEPER));
    rows.push(sample_button(locale, theme, Key::BeeperDisabled, off, HOT_BEEPER));
    rows.push(sample_button(locale, theme, Key::BeeperEnabled, on, HOT_BEEPER));
    rows.push(sample_button(locale, theme, Key::BeeperEnabled, off, HOT_BEEPER));
    rows.push(sample_button(locale, theme, Key::BeeperMuted, on, HOT_BEEPER));
    rows.push(sample_button(locale, theme, Key::BeeperMuted, off, HOT_BEEPER));
    rows.push(sample_button(locale, theme, Key::BeeperUnsupported, on, HOT_BEEPER));
    rows.push(sample_button(locale, theme, Key::BeeperUnsupported, off, HOT_BEEPER));
    proof {
        assert(rows_view(rows@) =~= before + beeper_samples(*locale, theme.colors));
    }
}

fn push_test_samples(rows: &mut Vec<Row>, locale: &Locale, theme: &Theme)
    ensures
        rows_view(final(rows)@) == rows_view(old(rows)@) + test_samples(*locale, theme.colors),
{
    broadcast use rows_view_push;

    let ghost before = rows_view(rows@);
    let go = Key::PanelSelfTest;
    rows.push(sample_button(locale, theme, Key::TestTestPassed, go, HOT_SELFTEST));
    rows.push(sample_button(locale, theme, Key::TestTestPassedWarning, go, HOT_SELFTEST));
    rows.push(sample_button(locale, theme, Key::TestTestError, go, HOT_SELFTEST));
    rows.push(sample_button(locale, theme, Key::TestTestAborted, go, HOT_SELFTEST));
    rows.push(sample_button(locale, theme, Key::TestTestInProgress, go, HOT_SELFTEST));
    rows.push(sample_button(locale, theme, Key::TestTestNotRun, go, HOT_SELFTEST));
    rows.push(sample_button(locale, theme, Key::TestTestScheduled, go, HOT_SELFTEST));
    rows.push(sample_button(locale, theme, Key::TestTestUnknown, go, HOT_SELFTEST));
    proof {
        assert(rows_view(rows@) =~= before + test_samples(*locale, theme.colors));
    }
}

fn push_fault_samples(rows: &mut Vec<Row>, locale: &Locale, theme: &Theme)
    ensures
        rows_view(final(rows)@) == rows_view(old(rows)@) + fault_samples(*locale, theme.colors),
{
    broadcast use rows_view_push;

    let ghost before = rows_view(rows@);
    let color = theme.colors.critical;
    rows.push(Row::Notice { text: locale.own(Key::FlagLowBattery), color });
    rows.push(Row::Notice { text: locale.own(Key::FlagRuntimeLimitExpired), color });
    rows.push(Row::Notice { text: locale.own(Key::FlagInternalFailure), color });
    rows.push(Row::Notice { text: locale.own(Key::FlagOverload), color });
    rows.push(Row::Notice { text: locale.own(Key::FlagVoltageOutOfRange), color });
    rows.push(Row::Notice { text: locale.own(Key::FlagFrequencyOutOfRange), color });
    proof {
        assert(rows_view(rows@) =~= before + fault_samples(*locale, theme.colors));
    }
}

/// Rows the window measures but never draws: the widest value each row of the
/// panel can take.
///
/// Every candidate is a row of its own rather than reduced to a widest one
/// here: which of two words is wider is a question about glyphs, and the
/// measuring pass already takes a maximum over rows. The labels are empty,
/// because every label is on a row that is always present.
pub fn width_samples(locale: &Locale, theme: &Theme) -> (rows: Vec<Row>)
    ensures
        rows_view(rows@) == sample_rows(*locale, theme.colors),
{
    let mut rows: Vec<Row> = Vec::new();
    proof {
        assert(rows_view(rows@) =~= seq![]);
    }
    push_unit_samples(&mut rows, theme, locale.t(Key::UnitVolt));
    push_unit_samples(&mut rows, theme, locale.t(Key::UnitWatt));
    push_unit_samples(&mut rows, theme, locale.t(Key::UnitVoltAmp));
    push_unit_samples(&mut rows, theme, locale.t(Key::UnitPercent));
    push_unit_samples(&mut rows, theme, locale.t(Key::UnitMinutes));
    proof {
        assert(rows_view(rows@) =~= number_samples(*locale, theme.colors));
    }
    push_words(&mut rows, locale, theme);
    push_beeper_samples(&mut rows, locale, theme);
    push_test_samples(&mut rows, locale, theme);
    push_fault_samples(&mut rows, locale, theme);
    rows
}

} // verus!
