//! What the settings dialog shows of a draft, and what each key and each click
//! does to it.

use crate::color::Color;
use crate::config::{each_switch_is_its_own_field, ConfigView, LogLevel, Switch, Switches};
use crate::lang::{
    a_text_without_room_takes_no_argument, an_argument_goes_into_the_first_room, room_at, Locale,
};
use crate::notify::EventKind;
use crate::row::{Edit, Gap, HotspotId, ItemView, Move, RowView, HOT_NOTHING};
use crate::scrollbar::{
    HOT_SCROLL_DOWN, HOT_SCROLL_PAGE_DOWN, HOT_SCROLL_PAGE_UP, HOT_SCROLL_THUMB, HOT_SCROLL_UP,
};
use crate::settings::{
    button_row, config_of, dialog_rows, draft_of, error_rows, found_at, head_rows, language_codes,
    language_options, level_options, options_in, position_of, refusal, switch_rows, theme_codes,
    theme_options, Action, DraftView, ListView, HOT_BOOST_ENDED, HOT_BOOST_STARTED, HOT_CANCEL,
    HOT_CONNECTION_LOST, HOT_CONNECTION_RESTORED, HOT_DEVICE_FAULT, HOT_FREQUENCY_OUT_OF_RANGE,
    HOT_INTERVAL, HOT_LANGUAGE, HOT_LOG_LEVEL, HOT_LOW_BATTERY, HOT_NOTIFICATIONS, HOT_OK,
    HOT_OVERLOAD, HOT_POWER_FAILURE, HOT_POWER_RESTORED, HOT_RUNTIME_LIMIT, HOT_START_MINIMIZED,
    HOT_THEME, HOT_VOLTAGE_OUT_OF_RANGE,
};
use crate::strings::{Key, Language};
use crate::strs::{decimal, decimal_is_tight, decimal_reads_back, parsed_u32, trimmed};
use crate::textfield::{CharFilter, FieldEdit};
use crate::theme::Builtin;
use vstd::prelude::*;

verus! {

/// A box for one event, one level in from the switch that turns them all off.
pub open spec fn event_box(label: Seq<char>, checked: bool, id: u32) -> RowView {
    RowView::Checkbox { label, checked, depth: 1, id: HotspotId(id) }
}

proof fn the_dialog_parts(
    d: DraftView,
    locale: Locale,
    critical: Color,
    themes: Seq<Builtin>,
    languages: Seq<Language>,
)
    ensures
        ({
            let rows = dialog_rows(d, locale, critical, themes, languages);
            let events = if d.switches.notifications_enabled {
                12int
            } else {
                0
            };
            let errors = if d.error is Some {
                3int
            } else {
                0
            };
            &&& rows.len() == 11 + events + errors
            &&& forall|k: int|
                0 <= k < 10 ==> rows[k] == #[trigger] head_rows(d, locale, themes, languages)[k]
            &&& forall|k: int|
                0 <= k < events ==> rows[10 + k] == #[trigger] switch_rows(d.switches, locale)[k]
            &&& forall|k: int|
                0 <= k < errors ==> rows[10 + events + k] == #[trigger] error_rows(
                    d.error,
                    critical,
                )[k]
            &&& rows[10 + events + errors] == button_row(locale)
        }),
{
}

/// With the notifications on, the twelve events stand below their switch in
/// this order, each under its own name, showing its own setting and clicked by
/// its own id; with them off there is none.
#[verifier::spinoff_prover]
pub proof fn each_event_has_its_box(
    d: DraftView,
    locale: Locale,
    critical: Color,
    themes: Seq<Builtin>,
    languages: Seq<Language>,
)
    requires
        d.switches.notifications_enabled,
    ensures
        ({
            let rows = dialog_rows(d, locale, critical, themes, languages);
            let s = d.switches;
            &&& rows[10] == event_box(
                locale.text(Key::SettingsOnPowerFailure),
                s.on_power_failure,
                HOT_POWER_FAILURE,
            )
            &&& rows[11] == event_box(
                locale.text(Key::SettingsOnPowerRestored),
                s.on_power_restored,
                HOT_POWER_RESTORED,
            )
            &&& rows[12] == event_box(
                locale.text(Key::SettingsOnLowBattery),
                s.on_low_battery,
                HOT_LOW_BATTERY,
            )
            &&& rows[13] == event_box(
                locale.text(Key::SettingsOnRuntimeLimit),
                s.on_runtime_limit,
                HOT_RUNTIME_LIMIT,
            )
            &&& rows[14] == event_box(
                locale.text(Key::SettingsOnVoltageOutOfRange),
                s.on_voltage_out_of_range,
                HOT_VOLTAGE_OUT_OF_RANGE,
            )
            &&& rows[15] == event_box(
                locale.text(Key::SettingsOnFrequencyOutOfRange),
                s.on_frequency_out_of_range,
                HOT_FREQUENCY_OUT_OF_RANGE,
            )
            &&& rows[16] == event_box(
                locale.text(Key::SettingsOnBoostStarted),
                s.on_boost_started,
                HOT_BOOST_STARTED,
            )
            &&& rows[17] == event_box(
                locale.text(Key::SettingsOnBoostEnded),
                s.on_boost_ended,
                HOT_BOOST_ENDED,
            )
            &&& rows[18] == event_box(
                locale.text(Key::SettingsOnDeviceFault),
                s.on_device_fault,
                HOT_DEVICE_FAULT,
            )
            &&& rows[19] == event_box(
                locale.text(Key::SettingsOnOverload),
                s.on_overload,
                HOT_OVERLOAD,
            )
            &&& rows[20] == event_box(
                locale.text(Key::SettingsOnConnectionLost),
                s.on_connection_lost,
                HOT_CONNECTION_LOST,
            )
            &&& rows[21] == event_box(
                locale.text(Key::SettingsOnConnectionRestored),
                s.on_connection_restored,
                HOT_CONNECTION_RESTORED,
            )
        }),
{
    the_dialog_parts(d, locale, critical, themes, languages);
    each_switch_is_its_own_field(d.switches);
    let boxes = switch_rows(d.switches, locale);
    assert(boxes[0] == event_box(locale.text(Key::SettingsOnPowerFailure), d.switches.on_power_failure, HOT_POWER_FAILURE));
    assert(boxes[1] == event_box(locale.text(Key::SettingsOnPowerRestored), d.switches.on_power_restored, HOT_POWER_RESTORED));
    assert(boxes[2] == event_box(locale.text(Key::SettingsOnLowBattery), d.switches.on_low_battery, HOT_LOW_BATTERY));
    assert(boxes[3] == event_box(locale.text(Key::SettingsOnRuntimeLimit), d.switches.on_runtime_limit, HOT_RUNTIME_LIMIT));
    assert(boxes[4] == event_box(locale.text(Key::SettingsOnVoltageOutOfRange), d.switches.on_voltage_out_of_range, HOT_VOLTAGE_OUT_OF_RANGE));
    assert(boxes[5] == event_box(locale.text(Key::SettingsOnFrequencyOutOfRange), d.switches.on_frequency_out_of_range, HOT_FREQUENCY_OUT_OF_RANGE));
    assert(boxes[6] == event_box(locale.text(Key::SettingsOnBoostStarted), d.switches.on_boost_started, HOT_BOOST_STARTED));
    assert(boxes[7] == event_box(locale.text(Key::SettingsOnBoostEnded), d.switches.on_boost_ended, HOT_BOOST_ENDED));
    assert(boxes[8] == event_box(locale.text(Key::SettingsOnDeviceFault), d.switches.on_device_fault, HOT_DEVICE_FAULT));
    assert(boxes[9] == event_box(locale.text(Key::SettingsOnOverload), d.switches.on_overload, HOT_OVERLOAD));
    assert(boxes[10] == event_box(locale.text(Key::SettingsOnConnectionLost), d.switches.on_connection_lost, HOT_CONNECTION_LOST));
    assert(boxes[11] == event_box(locale.text(Key::SettingsOnConnectionRestored), d.switches.on_connection_restored, HOT_CONNECTION_RESTORED));
}

/// The dialog opens with its title and the interval being edited, and ends with
/// its two buttons, the one that saves on the left; the switches above them show
/// their own settings.
#[verifier::spinoff_prover]
pub proof fn the_dialog_shows_the_draft(
    d: DraftView,
    locale: Locale,
    critical: Color,
    themes: Seq<Builtin>,
    languages: Seq<Language>,
)
    ensures
        ({
            let rows = dialog_rows(d, locale, critical, themes, languages);
            &&& rows[0] == RowView::Header(locale.text(Key::SettingsTitle))
            &&& rows[1] == RowView::Space(Gap::Half)
            &&& rows[6] == RowView::Space(Gap::Half)
            &&& rows[7] == (RowView::Checkbox {
                label: locale.text(Key::SettingsStartMinimized),
                checked: d.switches.start_minimized,
                depth: 0,
                id: HotspotId(HOT_START_MINIMIZED),
            })
            &&& rows[8] == RowView::Space(Gap::Half)
            &&& rows[9] == (RowView::Checkbox {
                label: locale.text(Key::SettingsNotifications),
                checked: d.switches.notifications_enabled,
                depth: 0,
                id: HotspotId(HOT_NOTIFICATIONS),
            })
            &&& rows[rows.len() - 1] == (RowView::Buttons {
                left: locale.text(Key::SettingsOk),
                left_id: HotspotId(HOT_OK),
                right: locale.text(Key::SettingsCancel),
                right_id: HotspotId(HOT_CANCEL),
            })
            &&& d.error matches Some(text) ==> {
                &&& rows[rows.len() - 2] == RowView::Space(Gap::Half)
                &&& rows[rows.len() - 3] == (RowView::Notice { text, color: critical })
                &&& rows[rows.len() - 4] == RowView::Space(Gap::Half)
            }
        }),
{
    the_dialog_parts(d, locale, critical, themes, languages);
    let head = head_rows(d, locale, themes, languages);
    let errors = error_rows(d.error, critical);
    assert(head[0] is Header && head[1] is Space && head[6] is Space && head[7] is Checkbox
        && head[8] is Space && head[9] is Checkbox);
    if d.error is Some {
        assert(errors[0] is Space && errors[1] is Notice && errors[2] is Space);
    }
}

/// The interval row shows the text being edited with its caret, and the range
/// between the caret and the anchor as selected; with nothing between them the
/// range is empty.
#[verifier::spinoff_prover]
pub proof fn the_interval_row_shows_the_field(
    d: DraftView,
    locale: Locale,
    critical: Color,
    themes: Seq<Builtin>,
    languages: Seq<Language>,
)
    ensures
        dialog_rows(d, locale, critical, themes, languages)[2] matches RowView::Field {
            label,
            value,
            caret,
            sel_start,
            sel_end,
            id,
        } && {
            let f = d.interval;
            &&& label == locale.text(Key::SettingsPollInterval)
            &&& value == f.text
            &&& caret == f.cursor
            &&& id == HotspotId(HOT_INTERVAL)
            &&& f.cursor == f.anchor ==> sel_start == sel_end
            &&& f.cursor < f.anchor ==> sel_start == f.cursor && sel_end == f.anchor
            &&& f.cursor > f.anchor ==> sel_start == f.anchor && sel_end == f.cursor
        },
{
    the_dialog_parts(d, locale, critical, themes, languages);
    assert(head_rows(d, locale, themes, languages)[2] is Field);
}

/// Whether a list row offers `options`, stands on `selected`, and shows the
/// state of its list: the highlight where the list has one, and on the selected
/// option where it has none.
pub open spec fn offers(
    row: RowView,
    title: Seq<char>,
    options: Seq<ItemView>,
    selected: int,
    list: ListView,
    hot: u32,
) -> bool {
    row matches RowView::Dropdown { label, options: shown, selected: on, highlighted, open, scroll, id }
        && {
        &&& label == title
        &&& shown == options
        &&& on == selected
        &&& list.highlight is Some ==> highlighted == list.highlight->0
        &&& list.highlight is None ==> highlighted == selected
        &&& open == list.open
        &&& scroll == list.scroll
        &&& id == HotspotId(hot)
    }
}

/// The three lists stand below the interval: the languages, the themes and the
/// levels of the log, each on what the draft holds.
#[verifier::spinoff_prover]
pub proof fn the_lists_stand_on_what_the_draft_holds(
    d: DraftView,
    locale: Locale,
    critical: Color,
    themes: Seq<Builtin>,
    languages: Seq<Language>,
)
    ensures
        ({
            let rows = dialog_rows(d, locale, critical, themes, languages);
            &&& offers(
                rows[3],
                locale.text(Key::SettingsLanguage),
                language_options(languages),
                position_of(language_codes(languages), d.language),
                d.lang,
                HOT_LANGUAGE,
            )
            &&& offers(
                rows[4],
                locale.text(Key::SettingsTheme),
                theme_options(themes, locale),
                position_of(theme_codes(themes), d.theme),
                d.theme_list,
                HOT_THEME,
            )
            &&& offers(
                rows[5],
                locale.text(Key::SettingsLogLevel),
                level_options(locale),
                if d.log_level == LogLevel::Normal {
                    0
                } else {
                    1
                },
                d.log,
                HOT_LOG_LEVEL,
            )
        }),
{
    the_dialog_parts(d, locale, critical, themes, languages);
    let head = head_rows(d, locale, themes, languages);
    assert(head[3] is Dropdown && head[4] is Dropdown && head[5] is Dropdown);
}

/// What the lists offer: each language by its English name, with its own name
/// and font beside it where the two differ; each theme and each level of the
/// log by its name in the language of the dialog.
pub proof fn the_lists_offer_what_there_is(
    locale: Locale,
    themes: Seq<Builtin>,
    languages: Seq<Language>,
    i: int,
)
    ensures
        language_options(languages).len() == languages.len(),
        theme_options(themes, locale).len() == themes.len(),
        level_options(locale).len() == 2,
        0 <= i < languages.len() ==> {
            let option = language_options(languages)[i];
            let l = languages[i];
            &&& option.label == l.english_name@
            &&& l.native_name@ == l.english_name@ ==> option.native.len() == 0
            &&& l.native_name@ != l.english_name@ ==> option.native == l.native_name@
            &&& l.font is None ==> option.font is None
            &&& l.font is Some ==> option.font == Some(l.font->0@)
        },
        0 <= i < themes.len() ==> {
            let option = theme_options(themes, locale)[i];
            &&& themes[i] == Builtin::Dark ==> option.label == locale.text(Key::ThemeDark)
            &&& themes[i] == Builtin::Light ==> option.label == locale.text(Key::ThemeLight)
            &&& option.native.len() == 0 && option.font is None
        },
        level_options(locale)[0].label == locale.text(Key::SettingsLogNormal),
        level_options(locale)[1].label == locale.text(Key::SettingsLogDebug),
        level_options(locale)[0].native.len() == 0 && level_options(locale)[0].font is None,
        level_options(locale)[1].native.len() == 0 && level_options(locale)[1].font is None,
{
}

/// A list stands on the first option whose code is the one the draft holds, and
/// on the first of all when none is.
pub proof fn a_list_stands_on_the_first_match(codes: Seq<Seq<char>>, code: Seq<char>, i: int)
    requires
        0 <= i <= codes.len(),
        forall|j: int| 0 <= j < i ==> #[trigger] codes[j] != code,
    ensures
        i < codes.len() && codes[i] == code ==> position_of(codes, code) == i,
        i == codes.len() ==> position_of(codes, code) == 0,
{
    the_first_code_is_found(codes, code, i);
}

proof fn the_first_code_is_found(codes: Seq<Seq<char>>, code: Seq<char>, i: int)
    requires
        0 <= i <= codes.len(),
        forall|j: int| 0 <= j < i ==> #[trigger] codes[j] != code,
    ensures
        i < codes.len() && codes[i] == code ==> found_at(codes, code) == Some(i),
        i == codes.len() ==> found_at(codes, code) is None,
    decreases codes.len(),
{
    if i > 0 {
        assert(codes[0] != code);
        let rest = codes.skip(1);
        assert forall|j: int| 0 <= j < i - 1 implies #[trigger] rest[j] != code by {
            assert(rest[j] == codes[j + 1]);
        }
        the_first_code_is_found(rest, code, i - 1);
    }
}

/// The codes a list is searched by are those of its languages and themes.
pub proof fn the_codes_are_in_the_order_of_the_list(
    themes: Seq<Builtin>,
    languages: Seq<Language>,
    i: int,
)
    ensures
        theme_codes(themes).len() == themes.len(),
        language_codes(languages).len() == languages.len(),
        0 <= i < languages.len() ==> language_codes(languages)[i] == languages[i].code@,
        0 <= i < themes.len() && themes[i] == Builtin::Dark ==> theme_codes(themes)[i]
            == seq!['d', 'a', 'r', 'k'],
        0 <= i < themes.len() && themes[i] == Builtin::Light ==> theme_codes(themes)[i]
            == seq!['l', 'i', 'g', 'h', 't'],
{
    reveal_strlit("dark");
    reveal_strlit("light");
    assert("dark"@ =~= seq!['d', 'a', 'r', 'k']);
    assert("light"@ =~= seq!['l', 'i', 'g', 'h', 't']);
}

/// A draft with no list showing, and otherwise the same.
pub open spec fn put_away(d: DraftView) -> DraftView {
    DraftView {
        lang: ListView { open: false, highlight: None, scroll: d.lang.scroll },
        log: ListView { open: false, highlight: None, scroll: d.log.scroll },
        theme_list: ListView { open: false, highlight: None, scroll: d.theme_list.scroll },
        ..d
    }
}

proof fn a_click_on_a_switch(
    d: DraftView,
    id: HotspotId,
    switch: Switch,
    themes: Seq<Builtin>,
    languages: Seq<Language>,
)
    requires
        Switch::named(id) == Some(switch),
    ensures
        d.clicked(id, themes, languages) == (
            DraftView {
                switches: d.switches.with(switch, !d.switches.state(switch)),
                ..put_away(d)
            },
            Action::Changed,
        ),
{
}

/// A click on a switch turns over the setting of its own name, puts away any
/// list that was showing, and changes nothing else.
#[verifier::spinoff_prover]
pub proof fn a_click_turns_over_the_switch_it_names(
    d: DraftView,
    themes: Seq<Builtin>,
    languages: Seq<Language>,
)
    ensures
        ({
            let s = d.switches;
            let turned = |id: u32, to: Switches|
                d.clicked(HotspotId(id), themes, languages) == (
                    DraftView { switches: to, ..put_away(d) },
                    Action::Changed,
                );
            &&& turned(HOT_START_MINIMIZED, Switches { start_minimized: !s.start_minimized, ..s })
            &&& turned(HOT_NOTIFICATIONS, Switches { notifications_enabled: !s.notifications_enabled, ..s })
            &&& turned(HOT_POWER_FAILURE, Switches { on_power_failure: !s.on_power_failure, ..s })
            &&& turned(HOT_POWER_RESTORED, Switches { on_power_restored: !s.on_power_restored, ..s })
            &&& turned(HOT_LOW_BATTERY, Switches { on_low_battery: !s.on_low_battery, ..s })
            &&& turned(HOT_RUNTIME_LIMIT, Switches { on_runtime_limit: !s.on_runtime_limit, ..s })
            &&& turned(HOT_VOLTAGE_OUT_OF_RANGE, Switches { on_voltage_out_of_range: !s.on_voltage_out_of_range, ..s })
            &&& turned(HOT_FREQUENCY_OUT_OF_RANGE, Switches { on_frequency_out_of_range: !s.on_frequency_out_of_range, ..s })
            &&& turned(HOT_BOOST_STARTED, Switches { on_boost_started: !s.on_boost_started, ..s })
            &&& turned(HOT_BOOST_ENDED, Switches { on_boost_ended: !s.on_boost_ended, ..s })
            &&& turned(HOT_DEVICE_FAULT, Switches { on_device_fault: !s.on_device_fault, ..s })
            &&& turned(HOT_OVERLOAD, Switches { on_overload: !s.on_overload, ..s })
            &&& turned(HOT_CONNECTION_LOST, Switches { on_connection_lost: !s.on_connection_lost, ..s })
            &&& turned(HOT_CONNECTION_RESTORED, Switches { on_connection_restored: !s.on_connection_restored, ..s })
        }),
{
    each_switch_is_its_own_field(d.switches);
    reveal(Switches::with);
    a_click_on_a_switch(d, HotspotId(HOT_START_MINIMIZED), Switch::StartMinimized, themes, languages);
    a_click_on_a_switch(d, HotspotId(HOT_NOTIFICATIONS), Switch::Notifications, themes, languages);
    a_click_on_a_switch(d, HotspotId(HOT_POWER_FAILURE), Switch::PowerFailure, themes, languages);
    a_click_on_a_switch(d, HotspotId(HOT_POWER_RESTORED), Switch::PowerRestored, themes, languages);
    a_click_on_a_switch(d, HotspotId(HOT_LOW_BATTERY), Switch::LowBattery, themes, languages);
    a_click_on_a_switch(d, HotspotId(HOT_RUNTIME_LIMIT), Switch::RuntimeLimit, themes, languages);
    a_click_on_a_switch(d, HotspotId(HOT_VOLTAGE_OUT_OF_RANGE), Switch::VoltageOutOfRange, themes, languages);
    a_click_on_a_switch(d, HotspotId(HOT_FREQUENCY_OUT_OF_RANGE), Switch::FrequencyOutOfRange, themes, languages);
    a_click_on_a_switch(d, HotspotId(HOT_BOOST_STARTED), Switch::BoostStarted, themes, languages);
    a_click_on_a_switch(d, HotspotId(HOT_BOOST_ENDED), Switch::BoostEnded, themes, languages);
    a_click_on_a_switch(d, HotspotId(HOT_DEVICE_FAULT), Switch::DeviceFault, themes, languages);
    a_click_on_a_switch(d, HotspotId(HOT_OVERLOAD), Switch::Overload, themes, languages);
    a_click_on_a_switch(d, HotspotId(HOT_CONNECTION_LOST), Switch::ConnectionLost, themes, languages);
    a_click_on_a_switch(d, HotspotId(HOT_CONNECTION_RESTORED), Switch::ConnectionRestored, themes, languages);
}

/// A click on OK asks to save and one on Cancel to discard; one into the
/// interval asks for a redraw, and one on nothing only when it put a list away.
/// Each puts every list away and changes nothing else.
pub proof fn a_click_asks_for_what_its_button_says(
    d: DraftView,
    themes: Seq<Builtin>,
    languages: Seq<Language>,
)
    ensures
        d.clicked(HotspotId(HOT_OK), themes, languages) == (put_away(d), Action::Commit),
        d.clicked(HotspotId(HOT_CANCEL), themes, languages) == (put_away(d), Action::Cancel),
        d.clicked(HotspotId(HOT_INTERVAL), themes, languages) == (put_away(d), Action::Changed),
        d.clicked(HotspotId(HOT_NOTHING), themes, languages).0 == put_away(d),
        d.lang.open || d.log.open || d.theme_list.open ==> d.clicked(
            HotspotId(HOT_NOTHING),
            themes,
            languages,
        ).1 == Action::Changed,
        !d.lang.open && !d.log.open && !d.theme_list.open ==> d.clicked(
            HotspotId(HOT_NOTHING),
            themes,
            languages,
        ).1 == Action::Nothing,
{
}

/// The state of a list just opened on `current`: highlighted there, with six
/// options above it in view where there are that many.
pub open spec fn opened_on(current: int) -> ListView {
    ListView {
        open: true,
        highlight: Some(current),
        scroll: if current > 6 {
            current - 6
        } else {
            0
        },
    }
}

/// The state of a list just closed by its own control.
pub open spec fn closed() -> ListView {
    ListView { open: false, highlight: None, scroll: 0 }
}

/// A click on a list opens it on what the draft holds, or closes it when it was
/// open; the other lists are put away, and nothing else changes.
#[verifier::spinoff_prover]
pub proof fn a_click_opens_or_closes_a_list(
    d: DraftView,
    themes: Seq<Builtin>,
    languages: Seq<Language>,
)
    ensures
        d.clicked(HotspotId(HOT_LANGUAGE), themes, languages) == (
            DraftView {
                lang: if d.lang.open {
                    closed()
                } else {
                    opened_on(position_of(language_codes(languages), d.language))
                },
                ..put_away(d)
            },
            Action::Changed,
        ),
        d.clicked(HotspotId(HOT_THEME), themes, languages) == (
            DraftView {
                theme_list: if d.theme_list.open {
                    closed()
                } else {
                    opened_on(position_of(theme_codes(themes), d.theme))
                },
                ..put_away(d)
            },
            Action::Changed,
        ),
        d.clicked(HotspotId(HOT_LOG_LEVEL), themes, languages) == (
            DraftView {
                log: if d.log.open {
                    closed()
                } else {
                    opened_on(
                        if d.log_level == LogLevel::Normal {
                            0
                        } else {
                            1
                        },
                    )
                },
                ..put_away(d)
            },
            Action::Changed,
        ),
{
}

/// A click on the option `i` of a list takes that option into the draft and
/// closes the list; one on an option that is not there closes it and takes
/// nothing.
#[verifier::spinoff_prover]
pub proof fn a_click_takes_the_option_it_is_on(
    d: DraftView,
    themes: Seq<Builtin>,
    languages: Seq<Language>,
    i: int,
)
    requires
        0 <= i < 100,
    ensures
        ({
            let after = d.clicked(HotspotId((20_700 + i) as u32), themes, languages);
            let shut = ListView { open: false, highlight: None, scroll: d.lang.scroll };
            &&& i < languages.len() ==> after == (
                DraftView { language: languages[i].code@, lang: shut, ..d },
                Action::Changed,
            )
            &&& i >= languages.len() ==> after == (DraftView { lang: shut, ..d }, Action::Changed)
        }),
        ({
            let after = d.clicked(HotspotId((20_600 + i) as u32), themes, languages);
            let shut = ListView { open: false, highlight: None, scroll: d.theme_list.scroll };
            &&& i < themes.len() ==> after == (
                DraftView { theme: theme_codes(themes)[i], theme_list: shut, ..d },
                Action::Changed,
            )
            &&& i >= themes.len() ==> after == (
                DraftView { theme_list: shut, ..d },
                Action::Changed,
            )
        }),
        ({
            let after = d.clicked(HotspotId((21_500 + i) as u32), themes, languages);
            let shut = ListView { open: false, highlight: None, scroll: d.log.scroll };
            &&& i == 0 ==> after == (
                DraftView { log_level: LogLevel::Normal, log: shut, ..d },
                Action::Changed,
            )
            &&& i == 1 ==> after == (
                DraftView { log_level: LogLevel::Debug, log: shut, ..d },
                Action::Changed,
            )
            &&& i >= 2 ==> after == (DraftView { log: shut, ..d }, Action::Changed)
        }),
{
    assert(HotspotId((20_700 + i) as u32).as_option() == Some((HotspotId(107), i)));
    assert(HotspotId((20_600 + i) as u32).as_option() == Some((HotspotId(106), i)));
    assert(HotspotId((21_500 + i) as u32).as_option() == Some((HotspotId(115), i)));
}

/// The largest offset a list of `count` options can be scrolled to.
pub open spec fn bottom_of(count: int) -> int {
    if count > 12 {
        count - 12
    } else {
        0
    }
}

/// What the keys and the pointer do to an open list: Escape closes it and takes
/// nothing; a key moves the highlight as far as it says; the pointer puts it on
/// the option it is over, the last when there is none; the wheel scrolls by its
/// notches, up for more, and a drag to where it is, both within the list.
/// Typing does nothing, and no key touches another list.
#[verifier::spinoff_prover]
pub proof fn an_open_list_follows_the_keys(
    d: DraftView,
    id: HotspotId,
    themes: Seq<Builtin>,
    languages: Seq<Language>,
    edit: Edit,
)
    requires
        d.list(id) is Some,
        d.list(id)->0.open,
        d.list(id)->0.highlight is Some,
        0 <= d.list(id)->0.highlight->0 < options_in(id, themes, languages)->0,
    ensures
        ({
            let count = options_in(id, themes, languages)->0;
            let list = d.list(id)->0;
            let at = list.highlight->0;
            let (after, action) = d.list_edited(id, edit, themes, languages);
            let to = after.list(id)->0;
            &&& forall|other: HotspotId|
                other != id ==> #[trigger] after.list(other) == d.list(other)
            &&& edit is Cancel ==> to == (ListView {
                open: false,
                highlight: None,
                scroll: list.scroll,
            })
            &&& edit is Commit ==> to == (ListView {
                open: false,
                highlight: None,
                scroll: list.scroll,
            })
            &&& edit == Edit::Highlight(Move::Next) ==> to.highlight == Some(
                if at + 1 < count {
                    at + 1
                } else {
                    at
                },
            )
            &&& edit == Edit::Highlight(Move::Previous) ==> to.highlight == Some(
                if at > 0 {
                    at - 1
                } else {
                    0
                },
            )
            &&& edit == Edit::Highlight(Move::PageForward) ==> to.highlight == Some(
                if at + 11 < count {
                    at + 11
                } else {
                    count - 1
                },
            )
            &&& edit == Edit::Highlight(Move::PageBack) ==> to.highlight == Some(
                if at > 11 {
                    at - 11
                } else {
                    0
                },
            )
            &&& edit == Edit::Highlight(Move::First) ==> to.highlight == Some(0int)
            &&& edit == Edit::Highlight(Move::Last) ==> to.highlight == Some(count - 1)
            &&& edit is Highlight ==> to.open
            &&& edit matches Edit::Hover(i) ==> to == (ListView {
                highlight: Some(
                    if i < count {
                        i as int
                    } else {
                        count - 1
                    },
                ),
                ..list
            })
            &&& edit matches Edit::Scroll(n) ==> to == (ListView {
                scroll: if list.scroll - n < 0 {
                    0
                } else if list.scroll - n > bottom_of(count) {
                    bottom_of(count)
                } else {
                    list.scroll - n
                },
                ..list
            })
            &&& edit matches Edit::ScrollTo(i) ==> to == (ListView {
                scroll: if i > bottom_of(count) {
                    bottom_of(count)
                } else {
                    i as int
                },
                ..list
            })
            &&& (edit is Insert || edit is Backspace || edit is Delete || edit is SelectAll
                || edit is CaretLeft || edit is CaretRight || edit is CaretHome || edit is CaretEnd
                || edit is CaretTo) ==> after == d && action == Action::Nothing
            &&& (edit is Cancel || edit is Commit || edit is Highlight || edit is Hover
                || edit is Scroll || edit is ScrollTo) ==> action == Action::Changed
        }),
{
}

/// Enter takes the highlighted option into the draft, and nothing else of it
/// changes but the list, which closes.
#[verifier::spinoff_prover]
pub proof fn enter_takes_the_highlighted_option(
    d: DraftView,
    id: HotspotId,
    themes: Seq<Builtin>,
    languages: Seq<Language>,
)
    requires
        d.list(id) is Some,
        d.list(id)->0.open,
        d.list(id)->0.highlight is Some,
        0 <= d.list(id)->0.highlight->0 < options_in(id, themes, languages)->0,
    ensures
        ({
            let at = d.list(id)->0.highlight->0;
            let after = d.list_edited(id, Edit::Commit, themes, languages).0;
            &&& after.language == if id.0 == HOT_LANGUAGE {
                languages[at].code@
            } else {
                d.language
            }
            &&& after.theme == if id.0 == HOT_THEME {
                theme_codes(themes)[at]
            } else {
                d.theme
            }
            &&& after.log_level == if id.0 != HOT_LOG_LEVEL {
                d.log_level
            } else if at == 0 {
                LogLevel::Normal
            } else {
                LogLevel::Debug
            }
            &&& after.switches == d.switches
            &&& after.interval == d.interval
            &&& after.error == d.error
        }),
{
}

/// How long each list is: as long as there are languages and themes, and two
/// for the levels of the log; nothing else is a list.
pub proof fn a_list_is_as_long_as_its_choices(
    id: HotspotId,
    themes: Seq<Builtin>,
    languages: Seq<Language>,
)
    ensures
        id.0 == HOT_LANGUAGE ==> options_in(id, themes, languages) == Some(languages.len() as int),
        id.0 == HOT_THEME ==> options_in(id, themes, languages) == Some(themes.len() as int),
        id.0 == HOT_LOG_LEVEL ==> options_in(id, themes, languages) == Some(2int),
        id.0 != HOT_LANGUAGE && id.0 != HOT_THEME && id.0 != HOT_LOG_LEVEL ==> options_in(
            id,
            themes,
            languages,
        ) is None,
{
}

/// The highlight that a key has moved is kept in view with the least scrolling:
/// none while it is among the twelve shown, up to it when it is above them, and
/// down to it at the bottom when it is below.
pub proof fn a_moved_highlight_scrolls_the_least(list: ListView, to: int)
    ensures
        ({
            let after = list.moved(to);
            &&& after.highlight == Some(to)
            &&& after.open == list.open
            &&& list.scroll <= to < list.scroll + 12 ==> after.scroll == list.scroll
            &&& to < list.scroll ==> after.scroll == to
            &&& to >= list.scroll + 12 ==> after.scroll + 11 == to
        }),
{
}

/// The parts of a scrollbar scroll the list that is showing as the wheel does:
/// the buttons by a notch and the track by a page, up for the upper ones; the
/// thumb, until it is dragged, by nothing.
#[verifier::spinoff_prover]
pub proof fn a_scrollbar_scrolls_the_list_showing(
    d: DraftView,
    open: HotspotId,
    themes: Seq<Builtin>,
    languages: Seq<Language>,
)
    requires
        d.one_list_at_most(),
        d.list(open) is Some,
        d.list(open)->0.open,
    ensures
        d.clicked(HotspotId(HOT_SCROLL_UP), themes, languages) == d.list_edited(
            open,
            Edit::Scroll(1),
            themes,
            languages,
        ),
        d.clicked(HotspotId(HOT_SCROLL_DOWN), themes, languages) == d.list_edited(
            open,
            Edit::Scroll((-1) as i32),
            themes,
            languages,
        ),
        d.clicked(HotspotId(HOT_SCROLL_PAGE_UP), themes, languages) == d.list_edited(
            open,
            Edit::Scroll(11),
            themes,
            languages,
        ),
        d.clicked(HotspotId(HOT_SCROLL_PAGE_DOWN), themes, languages) == d.list_edited(
            open,
            Edit::Scroll((-11) as i32),
            themes,
            languages,
        ),
        d.clicked(HotspotId(HOT_SCROLL_THUMB), themes, languages) == (d, Action::Changed),
{
}

/// A click on a part of a scrollbar while no list is showing does nothing.
pub proof fn a_scrollbar_without_a_list_does_nothing(
    d: DraftView,
    id: u32,
    themes: Seq<Builtin>,
    languages: Seq<Language>,
)
    requires
        !d.lang.open && !d.log.open && !d.theme_list.open,
        id == HOT_SCROLL_UP || id == HOT_SCROLL_DOWN || id == HOT_SCROLL_PAGE_UP || id
            == HOT_SCROLL_PAGE_DOWN || id == HOT_SCROLL_THUMB,
    ensures
        d.clicked(HotspotId(id), themes, languages) == (d, Action::Nothing),
{
}

/// Each editing key does to the interval what it does to a field; Enter asks to
/// save and Escape to discard; the keys of a list do nothing to it, and no key
/// does anything to a field that is not there.
#[verifier::spinoff_prover]
pub proof fn the_interval_takes_the_editing_keys(
    d: DraftView,
    id: HotspotId,
    edit: Edit,
    c: char,
    index: usize,
    extend: bool,
)
    ensures
        ({
            let (after, action) = d.field_edited(HotspotId(HOT_INTERVAL), edit);
            let typed = |key: FieldEdit|
                after == (DraftView { interval: d.interval.edited(key).0, ..d }) && action
                    == Action::Changed;
            &&& edit == Edit::Insert(c) ==> typed(FieldEdit::Insert(c))
            &&& edit == Edit::Backspace ==> typed(FieldEdit::Backspace)
            &&& edit == Edit::Delete ==> typed(FieldEdit::Delete)
            &&& edit == (Edit::CaretLeft { extend }) ==> typed(FieldEdit::Left { extend })
            &&& edit == (Edit::CaretRight { extend }) ==> typed(FieldEdit::Right { extend })
            &&& edit == (Edit::CaretHome { extend }) ==> typed(FieldEdit::Home { extend })
            &&& edit == (Edit::CaretEnd { extend }) ==> typed(FieldEdit::End { extend })
            &&& edit == Edit::SelectAll ==> typed(FieldEdit::SelectAll)
            &&& edit == (Edit::CaretTo { index, extend }) ==> typed(
                FieldEdit::CaretTo { index, extend },
            )
            &&& edit == Edit::Commit ==> after == d && action == Action::Commit
            &&& edit == Edit::Cancel ==> after == d && action == Action::Cancel
            &&& (edit is Highlight || edit is Scroll || edit is ScrollTo || edit is Hover)
                ==> after == d && action == Action::Nothing
        }),
        id.0 != HOT_INTERVAL ==> d.field_edited(id, edit) == (d, Action::Nothing),
{
}

/// An interval is saved exactly when its text, without the white space around
/// it, reads as a number from a thousand to sixty thousand; that number is what
/// is saved.
pub proof fn an_interval_is_saved_within_its_limits(d: DraftView)
    ensures
        d.interval_ms() is Some <==> parsed_u32(trimmed(d.interval.text)) is Some && 1_000
            <= parsed_u32(trimmed(d.interval.text))->0 <= 60_000,
        d.interval_ms() is Some ==> d.interval_ms() == parsed_u32(trimmed(d.interval.text)),
{
}

/// A number typed into the interval is saved as that number when it is within
/// the limits, and refused when it is not.
pub proof fn a_typed_interval_is_what_is_saved(d: DraftView, n: u32)
    requires
        d.interval.text == decimal(n as nat),
    ensures
        1_000 <= n <= 60_000 ==> d.interval_ms() == Some(n),
        n < 1_000 || n > 60_000 ==> d.interval_ms() is None,
{
    decimal_is_tight(n as nat);
    decimal_reads_back(n);
}

/// A dialog opens on the configuration, with its lists closed and no error: the
/// interval in decimal with the caret behind it, in a field of digits with room
/// for five.
pub proof fn a_draft_opens_on_the_configuration(cfg: ConfigView)
    ensures
        ({
            let d = draft_of(cfg);
            &&& d.interval.text == decimal(cfg.poll_interval_ms as nat)
            &&& d.interval.cursor == d.interval.text.len()
            &&& d.interval.anchor == d.interval.text.len()
            &&& d.interval.filter == CharFilter::Digits
            &&& d.interval.max_len == 5
            &&& d.switches == cfg.switches
            &&& d.theme == cfg.theme
            &&& d.language == cfg.language
            &&& d.log_level == cfg.log_level
            &&& d.error is None
            &&& d.lang == closed()
            &&& d.log == closed()
            &&& d.theme_list == closed()
        }),
{
}

/// What is saved of a draft is what it holds, setting by setting.
pub proof fn a_draft_saves_what_it_holds(d: DraftView)
    requires
        d.interval_ms() is Some,
    ensures
        ({
            let cfg = config_of(d);
            &&& Some(cfg.poll_interval_ms) == parsed_u32(trimmed(d.interval.text))
            &&& cfg.switches == d.switches
            &&& cfg.theme == d.theme
            &&& cfg.language == d.language
            &&& cfg.log_level == d.log_level
        }),
{
}

/// Each of the three lists of a draft is the one under its own id, and the one
/// that is showing is the one that is open.
pub proof fn a_list_is_found_under_its_id(d: DraftView)
    ensures
        d.list(HotspotId(HOT_LANGUAGE)) == Some(d.lang),
        d.list(HotspotId(HOT_THEME)) == Some(d.theme_list),
        d.list(HotspotId(HOT_LOG_LEVEL)) == Some(d.log),
        d.one_list_at_most() ==> {
            &&& d.lang.open <==> d.showing() == Some(HotspotId(HOT_LANGUAGE))
            &&& d.theme_list.open <==> d.showing() == Some(HotspotId(HOT_THEME))
            &&& d.log.open <==> d.showing() == Some(HotspotId(HOT_LOG_LEVEL))
            &&& d.showing() is None <==> !d.lang.open && !d.theme_list.open && !d.log.open
        },
{
}

/// Each event is switched under its own name.
pub proof fn each_event_is_switched_under_its_name()
    ensures
        EventKind::PowerFailure.switch_name() == Key::SettingsOnPowerFailure,
        EventKind::PowerRestored.switch_name() == Key::SettingsOnPowerRestored,
        EventKind::LowBattery.switch_name() == Key::SettingsOnLowBattery,
        EventKind::RuntimeLimitExpired.switch_name() == Key::SettingsOnRuntimeLimit,
        EventKind::VoltageOutOfRange.switch_name() == Key::SettingsOnVoltageOutOfRange,
        EventKind::FrequencyOutOfRange.switch_name() == Key::SettingsOnFrequencyOutOfRange,
        EventKind::BoostStarted.switch_name() == Key::SettingsOnBoostStarted,
        EventKind::BoostEnded.switch_name() == Key::SettingsOnBoostEnded,
        EventKind::DeviceFault.switch_name() == Key::SettingsOnDeviceFault,
        EventKind::Overload.switch_name() == Key::SettingsOnOverload,
        EventKind::Disconnected.switch_name() == Key::SettingsOnConnectionLost,
        EventKind::Reconnected.switch_name() == Key::SettingsOnConnectionRestored,
        forall|a: EventKind, b: EventKind| #[trigger] a.switch_name() == #[trigger] b.switch_name()
            ==> a == b,
{
}

/// A refused interval is answered with the language's text for it, with the
/// thousand milliseconds of the shortest one in the first place that has room.
pub proof fn a_refusal_names_the_shortest_interval(locale: Locale, i: int)
    ensures
        ({
            let text = locale.text(Key::SettingsInvalidInterval);
            &&& room_at(text, i) && (forall|j: int| 0 <= j < i ==> !#[trigger] room_at(text, j))
                ==> refusal(locale) == text.take(i) + decimal(1_000) + text.skip(i + 2)
            &&& (forall|j: int| 0 <= j < text.len() ==> !#[trigger] room_at(text, j)) ==> refusal(
                locale,
            ) == text
        }),
{
    let text = locale.text(Key::SettingsInvalidInterval);
    if room_at(text, i) && (forall|j: int| 0 <= j < i ==> !#[trigger] room_at(text, j)) {
        an_argument_goes_into_the_first_room(text, decimal(1_000), i);
    }
    if forall|j: int| 0 <= j < text.len() ==> !#[trigger] room_at(text, j) {
        a_text_without_room_takes_no_argument(text, decimal(1_000));
    }
}

} // verus!
