use ups_monitor::color::Color;
use ups_monitor::config::{Config, LogLevel, Switches};
use ups_monitor::focus::{initial, ring};
use ups_monitor::icon::{IconSet, IconSpec};
use ups_monitor::lang::Locale;
use ups_monitor::row::{Edit, HotspotId, Move, Row};
use ups_monitor::scrollbar;
use ups_monitor::scrollbar::{DROPDOWN_MAX_VISIBLE, DROPDOWN_PAGE};
use ups_monitor::settings;
use ups_monitor::settings::{language_item, Action, SettingsDraft, INTERVAL_MAX_DIGITS};
use ups_monitor::strings::{Key, Language};
use ups_monitor::textfield::{CharFilter, TextField};
use ups_monitor::theme::{Builtin, Theme};

const HOT_CANCEL: HotspotId = HotspotId(settings::HOT_CANCEL);
const HOT_CONNECTION_LOST: HotspotId = HotspotId(settings::HOT_CONNECTION_LOST);
const HOT_CONNECTION_RESTORED: HotspotId = HotspotId(settings::HOT_CONNECTION_RESTORED);
const HOT_DEVICE_FAULT: HotspotId = HotspotId(settings::HOT_DEVICE_FAULT);
const HOT_FREQUENCY_OUT_OF_RANGE: HotspotId = HotspotId(settings::HOT_FREQUENCY_OUT_OF_RANGE);
const HOT_INTERVAL: HotspotId = HotspotId(settings::HOT_INTERVAL);
const HOT_LANGUAGE: HotspotId = HotspotId(settings::HOT_LANGUAGE);
const HOT_LOG_LEVEL: HotspotId = HotspotId(settings::HOT_LOG_LEVEL);
const HOT_LOW_BATTERY: HotspotId = HotspotId(settings::HOT_LOW_BATTERY);
const HOT_NOTIFICATIONS: HotspotId = HotspotId(settings::HOT_NOTIFICATIONS);
const HOT_OK: HotspotId = HotspotId(settings::HOT_OK);
const HOT_POWER_FAILURE: HotspotId = HotspotId(settings::HOT_POWER_FAILURE);
const HOT_POWER_RESTORED: HotspotId = HotspotId(settings::HOT_POWER_RESTORED);
const HOT_START_MINIMIZED: HotspotId = HotspotId(settings::HOT_START_MINIMIZED);
const HOT_THEME: HotspotId = HotspotId(settings::HOT_THEME);
const HOT_VOLTAGE_OUT_OF_RANGE: HotspotId = HotspotId(settings::HOT_VOLTAGE_OUT_OF_RANGE);
const HOT_SCROLL_DOWN: HotspotId = HotspotId(scrollbar::HOT_SCROLL_DOWN);
const HOT_SCROLL_PAGE_DOWN: HotspotId = HotspotId(scrollbar::HOT_SCROLL_PAGE_DOWN);
const HOT_SCROLL_PAGE_UP: HotspotId = HotspotId(scrollbar::HOT_SCROLL_PAGE_UP);
const HOT_SCROLL_THUMB: HotspotId = HotspotId(scrollbar::HOT_SCROLL_THUMB);
const HOT_SCROLL_UP: HotspotId = HotspotId(scrollbar::HOT_SCROLL_UP);

fn mark(r: u8, g: u8, b: u8) -> IconSpec {
    IconSpec { fill: Color::from_rgb(r, g, b), stroke: Color::from_rgb(0, 0, 0) }
}

fn icons() -> IconSet {
    IconSet {
        normal: mark(0x34, 0xC7, 0x59),
        on_battery: mark(0xFF, 0x9F, 0x0A),
        critical: mark(0xFF, 0x3B, 0x30),
        disconnected: mark(0x8E, 0x8E, 0x93),
        app: mark(0x0A, 0x84, 0xFF),
    }
}

fn english() -> Locale {
    let texts = [
        (Key::PanelTitle, "UPS Monitor"),
        (Key::PanelGroupInput, "Input"),
        (Key::PanelGroupOutput, "Output"),
        (Key::PanelGroupBattery, "Battery"),
        (Key::PanelGroupStatus, "Status"),
        (Key::PanelGroupDevice, "Device"),
        (Key::PanelState, "Power"),
        (Key::PanelInputVoltage, "Input voltage"),
        (Key::PanelInputNominal, "Rated input"),
        (Key::PanelTransferWindow, "Transfer window"),
        (Key::PanelOutputVoltage, "Output voltage"),
        (Key::PanelLoadPercent, "Load"),
        (Key::PanelLoadWatts, "Load (W)"),
        (Key::PanelLoadVa, "Load (VA)"),
        (Key::PanelCharge, "Charge"),
        (Key::PanelBatteryVoltage, "Battery voltage"),
        (Key::PanelBatteryNominal, "Rated battery"),
        (Key::PanelRuntime, "Runtime"),
        (Key::PanelChargeState, "Charge state"),
        (Key::PanelCapacityLimit, "Low-charge threshold"),
        (Key::PanelWarningCapacity, "Warning threshold"),
        (Key::PanelRuntimeLimit, "Runtime threshold"),
        (Key::PanelModel, "Model"),
        (Key::PanelFirmware, "Firmware"),
        (Key::PanelSerial, "Serial number"),
        (Key::PanelNominalPower, "Rated power"),
        (Key::PanelManufacturer, "Manufacturer"),
        (Key::PanelBeeper, "Buzzer"),
        (Key::PanelChemistry, "Battery type"),
        (Key::PanelLastTest, "Last test"),
        (Key::PanelSelfTest, "Self-test"),
        (Key::MenuSettings, "Settings"),
        (Key::StateDisconnected, "Disconnected"),
        (Key::StateOnline, "On mains"),
        (Key::StateOnBattery, "On battery"),
        (Key::StateFullyCharged, "Fully charged"),
        (Key::StateCharging, "Charging"),
        (Key::StateDischarging, "Discharging"),
        (Key::StateIdle, "Idle"),
        (Key::ErrorDeviceNotFound, "Device not found."),
        (Key::ErrorDeviceNotFoundHint, "Check the UPS is connected over USB and seen as a HID device by Windows."),
        (Key::UnitVolt, "V"),
        (Key::UnitWatt, "W"),
        (Key::UnitVoltAmp, "VA"),
        (Key::UnitPercent, "%"),
        (Key::UnitMinutes, "min"),
        (Key::FlagLowBattery, "Battery low"),
        (Key::FlagRuntimeLimitExpired, "Runtime limit expired"),
        (Key::FlagInternalFailure, "Internal failure"),
        (Key::FlagOverload, "Overload"),
        (Key::FlagVoltageOutOfRange, "Mains voltage out of range"),
        (Key::FlagFrequencyOutOfRange, "Mains frequency out of range"),
        (Key::FlagBoost, "Voltage boost active"),
        (Key::BeeperUnsupported, "Unsupported"),
        (Key::BeeperDisabled, "Disabled"),
        (Key::BeeperEnabled, "Enabled"),
        (Key::BeeperMuted, "Muted"),
        (Key::BeeperEnable, "Enable"),
        (Key::BeeperDisable, "Disable"),
        (Key::TestTestPassed, "Passed"),
        (Key::TestTestPassedWarning, "Passed with a warning"),
        (Key::TestTestError, "Failed"),
        (Key::TestTestAborted, "Aborted"),
        (Key::TestTestInProgress, "In progress"),
        (Key::TestTestNotRun, "Not run"),
        (Key::TestTestScheduled, "Scheduled"),
        (Key::TestTestUnknown, "Unknown"),
        (Key::SettingsTitle, "Settings"),
        (Key::SettingsPollInterval, "Poll interval, ms"),
        (Key::SettingsLanguage, "Language"),
        (Key::SettingsTheme, "Theme"),
        (Key::SettingsLogLevel, "Log level"),
        (Key::SettingsLogNormal, "Normal"),
        (Key::SettingsLogDebug, "Debug"),
        (Key::SettingsStartMinimized, "Start minimised"),
        (Key::SettingsNotifications, "Notifications"),
        (Key::SettingsOnPowerFailure, "Power failure"),
        (Key::SettingsOnPowerRestored, "Power restored"),
        (Key::SettingsOnLowBattery, "Low battery"),
        (Key::SettingsOnRuntimeLimit, "Runtime limit"),
        (Key::SettingsOnDeviceFault, "Device fault"),
        (Key::SettingsOnOverload, "Overload"),
        (Key::SettingsOnVoltageOutOfRange, "Voltage out of range"),
        (Key::SettingsOnFrequencyOutOfRange, "Frequency out of range"),
        (Key::SettingsOnBoostStarted, "Boost started"),
        (Key::SettingsOnBoostEnded, "Boost ended"),
        (Key::SettingsOnConnectionLost, "Connection lost"),
        (Key::SettingsOnConnectionRestored, "Connection restored"),
        (Key::SettingsOk, "OK"),
        (Key::SettingsCancel, "Cancel"),
        (Key::SettingsInvalidInterval, "Interval must be between {} and 60000 ms"),
        (Key::ThemeDark, "Dark"),
        (Key::ThemeLight, "Light"),
    ];
    Locale { texts: texts.iter().map(|(key, text)| (*key, (*text).to_owned())).collect() }
}

/// The languages of the interface, English first.
fn languages() -> Vec<Language> {
    [
        ("en", "English", "English", None),
        ("bg", "Bulgarian", "Български", None),
        ("cs", "Czech", "Čeština", None),
        ("da", "Danish", "Dansk", None),
        ("de", "German", "Deutsch", None),
        ("el", "Greek", "Ελληνικά", None),
        ("es", "Spanish", "Español", None),
        ("fi", "Finnish", "Suomi", None),
        ("fr", "French", "Français", None),
        ("hu", "Hungarian", "Magyar", None),
        ("it", "Italian", "Italiano", None),
        ("ja", "Japanese", "日本語", Some("Yu Gothic UI")),
        ("ko", "Korean", "한국어", Some("Malgun Gothic")),
        ("nl", "Dutch", "Nederlands", None),
        ("pl", "Polish", "Polski", None),
        ("pt", "Portuguese", "Português", None),
        ("ro", "Romanian", "Română", None),
        ("ru", "Russian", "Русский", None),
        ("sv", "Swedish", "Svenska", None),
        ("tr", "Turkish", "Türkçe", None),
        ("uk", "Ukrainian", "Українська", None),
        ("vi", "Vietnamese", "Tiếng Việt", None),
        ("zh-hans", "Chinese (Simplified)", "简体中文", Some("Microsoft YaHei")),
        ("zh-hant", "Chinese (Traditional)", "繁體中文", Some("Microsoft JhengHei")),
    ]
    .iter()
    .map(|(code, english_name, native_name, font)| Language {
        code,
        english_name,
        native_name,
        font: *font,
    })
    .collect()
}

fn config() -> Config {
    Config {
        poll_interval_ms: 3000,
        theme: "dark".to_owned(),
        language: "en".to_owned(),
        log_level: LogLevel::Normal,
        switches: Switches {
            start_minimized: false,
            notifications_enabled: true,
            on_power_failure: true,
            on_power_restored: true,
            on_low_battery: true,
            on_device_fault: true,
            on_overload: true,
            on_voltage_out_of_range: true,
            on_frequency_out_of_range: true,
            on_runtime_limit: true,
            on_connection_lost: true,
            on_connection_restored: true,
            on_boost_started: true,
            on_boost_ended: true,
        },
    }
}

fn locale() -> Locale {
    english()
}

fn set_interval(d: &mut SettingsDraft, text: &str) {
    d.interval = TextField::new(text, CharFilter::Digits, INTERVAL_MAX_DIGITS);
}

#[test]
fn every_checkbox_toggles_and_reports_change() {
    let cfg = config();
    for id in [
        HOT_START_MINIMIZED,
        HOT_NOTIFICATIONS,
        HOT_POWER_FAILURE,
        HOT_POWER_RESTORED,
        HOT_LOW_BATTERY,
        HOT_DEVICE_FAULT,
    ] {
        let mut d = SettingsDraft::from_config(&cfg);

        let before = d.checkbox(id).expect("id must be a checkbox");
        let action = d.on_click(id, &[], &[]);

        assert!(
            matches!(action, Action::Changed),
            "id {id:?} must report a change"
        );
        assert_eq!(
            d.checkbox(id).unwrap(),
            !before,
            "id {id:?} must flip its own flag"
        );
    }
}

#[test]
fn every_switch_reads_and_writes_the_same_field() {
    let cfg = config();
    for (kind, id) in SettingsDraft::event_switches() {
        let mut d = SettingsDraft::from_config(&cfg);
        let before = d.switch(id);
        let label = format!("{:?}", kind.switch_key());
        assert_eq!(
            d.checkbox(id)
                .unwrap_or_else(|| panic!("{label} ({id:?}) must be a checkbox")),
            before,
            "{label}: the row reads a different field than the click writes"
        );
        d.on_click(id, &[], &[]);
        assert_eq!(d.switch(id), !before, "{label} did not toggle");
    }
}

#[test]
fn every_notifiable_event_has_its_own_switch() {
    assert_eq!(SettingsDraft::event_switches().len(), 12);

    let ids: std::collections::HashSet<_> = SettingsDraft::event_switches()
        .iter()
        .map(|(_, id)| *id)
        .collect();
    assert_eq!(
        ids.len(),
        SettingsDraft::event_switches().len(),
        "two switches share a hotspot id"
    );
}

#[test]
fn every_switch_has_a_label() {
    let l = locale();
    for (kind, _) in SettingsDraft::event_switches() {
        let key = kind.switch_key();
        assert_ne!(
            l.t(key),
            format!("{key:?}"),
            "{} has no text in the embedded locale",
            format!("{key:?}")
        );
    }
    for key in [
        Key::SettingsLogLevel,
        Key::SettingsLogNormal,
        Key::SettingsLogDebug,
    ] {
        assert_ne!(
            l.t(key),
            format!("{key:?}"),
            "{} has no text in the embedded locale",
            format!("{key:?}")
        );
    }
}

#[test]
fn every_log_level_is_reachable_through_the_list() {
    let cfg = config();
    let mut d = SettingsDraft::from_config(&cfg);
    let start = d.log_level;

    d.on_click(HOT_LOG_LEVEL, &[], &[]);
    assert!(d.log.open, "the first click opens the list");
    assert_eq!(
        d.log_level, start,
        "opening a list must not change the value"
    );

    for (i, level) in LogLevel::ALL.iter().enumerate() {
        d.log.open = true;
        d.on_click(HOT_LOG_LEVEL.option(i), &[], &[]);
        assert_eq!(d.log_level, *level, "{level:?} is unreachable");
        assert!(!d.log.open, "choosing an option closes the list");
    }
}

#[test]
fn every_theme_is_reachable_through_the_list() {
    let cfg = config();
    let mut d = SettingsDraft::from_config(&cfg);
    let start = d.theme.clone();

    d.on_click(HOT_THEME, &Builtin::ALL, &[]);
    assert!(d.theme_list.open, "the first click opens the list");
    assert_eq!(d.theme, start, "opening a list must not change the value");

    for (i, b) in Builtin::ALL.iter().enumerate() {
        d.theme_list.open = true;
        d.on_click(HOT_THEME.option(i), &Builtin::ALL, &[]);
        assert_eq!(d.theme, b.code(), "{b:?} is unreachable");
        assert!(!d.theme_list.open, "choosing an option closes the list");
    }
}

#[test]
fn theme_defaults_to_dark_and_round_trips() {
    let cfg = config();
    assert_eq!(cfg.theme, "dark");
    let d = SettingsDraft::from_config(&cfg);
    assert_eq!(d.theme, "dark");
}

#[test]
fn clicking_an_open_list_closes_it_unchanged() {
    let cfg = config();
    let mut d = SettingsDraft::from_config(&cfg);
    let before = d.log_level;
    d.on_click(HOT_LOG_LEVEL, &[], &[]);
    d.on_click(HOT_LOG_LEVEL, &[], &[]);
    assert!(!d.log.open);
    assert_eq!(d.log_level, before);
}

#[test]
fn clicking_elsewhere_closes_an_open_list() {
    let cfg = config();
    let mut d = SettingsDraft::from_config(&cfg);
    d.on_click(HOT_LANGUAGE, &[], &languages());
    assert!(d.lang.open);
    d.on_click(HOT_NOTIFICATIONS, &[], &languages());
    assert!(!d.lang.open, "a click elsewhere must dismiss the list");
}

#[test]
fn clicking_the_interval_field_closes_an_open_list() {
    let cfg = config();
    let mut d = SettingsDraft::from_config(&cfg);
    d.on_click(HOT_LANGUAGE, &[], &languages());
    assert!(d.lang.open);
    d.on_click(HOT_INTERVAL, &[], &languages());
    assert!(
        !d.lang.open,
        "clicking into the interval field must dismiss the list"
    );
}

#[test]
fn arrows_move_the_highlight_but_do_not_choose() {
    let cfg = config();
    let mut d = SettingsDraft::from_config(&cfg);
    let languages = &languages()[..];
    d.on_click(HOT_LANGUAGE, &[], languages);
    let before = d.language.clone();

    d.on_list_edit(HOT_LANGUAGE, Edit::Highlight(Move::Next), &[], languages);
    assert_eq!(d.lang.highlight, Some(1));
    assert_eq!(d.language, before, "arrowing must not change the setting");

    d.on_list_edit(HOT_LANGUAGE, Edit::Commit, &[], languages);
    assert_eq!(d.language, languages[1].code, "Enter takes the highlight");
    assert!(!d.lang.open);
}

#[test]
fn escape_closes_the_list_without_cancelling_the_dialog() {
    let cfg = config();
    let mut d = SettingsDraft::from_config(&cfg);
    let languages = &languages()[..];
    d.on_click(HOT_LANGUAGE, &[], languages);
    let before = d.language.clone();
    d.on_list_edit(HOT_LANGUAGE, Edit::Highlight(Move::Next), &[], languages);

    let action = d.on_list_edit(HOT_LANGUAGE, Edit::Cancel, &[], languages);
    assert!(
        matches!(action, Action::Changed),
        "Escape in a list redraws; it does not cancel the dialog"
    );
    assert!(!d.lang.open);
    assert_eq!(d.language, before);
}

#[test]
fn the_highlight_stops_at_both_ends() {
    let cfg = config();
    let mut d = SettingsDraft::from_config(&cfg);
    let languages = &languages()[..];
    let n = languages.len();

    d.on_click(HOT_LANGUAGE, &[], languages);
    d.lang.highlight = Some(0);
    d.on_list_edit(
        HOT_LANGUAGE,
        Edit::Highlight(Move::Previous),
        &[],
        languages,
    );
    assert_eq!(d.lang.highlight, Some(0), "must not run off the top");

    d.lang.highlight = Some(n - 1);
    d.on_list_edit(HOT_LANGUAGE, Edit::Highlight(Move::Next), &[], languages);
    assert_eq!(d.lang.highlight, Some(n - 1), "must not run off the bottom");
}

#[test]
fn the_highlight_stays_on_screen() {
    let cfg = config();
    let mut d = SettingsDraft::from_config(&cfg);
    let languages = &languages()[..];
    let n = languages.len();
    assert!(
        n > DROPDOWN_MAX_VISIBLE,
        "this test is meaningless unless the list scrolls"
    );

    d.on_click(HOT_LANGUAGE, &[], languages);
    d.lang.highlight = Some(0);
    d.lang.scroll = 0;
    for _ in 0..n {
        d.on_list_edit(HOT_LANGUAGE, Edit::Highlight(Move::Next), &[], languages);
        let h = d.lang.highlight.expect("highlight is set");
        assert!(
            h >= d.lang.scroll && h < d.lang.scroll + DROPDOWN_MAX_VISIBLE,
            "highlight {h} is outside the visible window at scroll {}",
            d.lang.scroll
        );
    }
}

#[test]
fn paging_moves_the_highlight_and_keeps_it_on_screen() {
    let cfg = config();
    let mut d = SettingsDraft::from_config(&cfg);
    let languages = &languages()[..];
    let n = languages.len();
    assert!(
        n > DROPDOWN_MAX_VISIBLE,
        "this test is meaningless unless the list scrolls"
    );

    d.on_click(HOT_LANGUAGE, &[], languages);
    d.lang.highlight = Some(0);
    d.lang.scroll = 0;

    d.on_list_edit(
        HOT_LANGUAGE,
        Edit::Highlight(Move::PageForward),
        &[],
        languages,
    );
    assert_eq!(d.lang.highlight, Some(DROPDOWN_PAGE));
    let h = d.lang.highlight.expect("highlight is set");
    assert!(
        h >= d.lang.scroll && h < d.lang.scroll + DROPDOWN_MAX_VISIBLE,
        "a page must scroll the highlight into view"
    );

    for _ in 0..n {
        d.on_list_edit(
            HOT_LANGUAGE,
            Edit::Highlight(Move::PageForward),
            &[],
            languages,
        );
    }
    assert_eq!(
        d.lang.highlight,
        Some(n - 1),
        "paging past the end lands on the end"
    );
    assert_eq!(
        d.lang.scroll,
        n - DROPDOWN_MAX_VISIBLE,
        "and the last option is on screen"
    );

    for _ in 0..n {
        d.on_list_edit(
            HOT_LANGUAGE,
            Edit::Highlight(Move::PageBack),
            &[],
            languages,
        );
    }
    assert_eq!(d.lang.highlight, Some(0), "and back to the first");
    assert_eq!(d.lang.scroll, 0);
    assert!(d.lang.open, "paging must not dismiss the list");
}

#[test]
fn the_wheel_scrolls_within_bounds() {
    let cfg = config();
    let mut d = SettingsDraft::from_config(&cfg);
    let languages = &languages()[..];
    let n = languages.len();
    let max = n - DROPDOWN_MAX_VISIBLE;

    d.on_click(HOT_LANGUAGE, &[], languages);
    d.lang.scroll = 0;
    d.on_list_edit(HOT_LANGUAGE, Edit::Scroll(5), &[], languages);
    assert_eq!(d.lang.scroll, 0, "cannot scroll above the first option");

    d.on_list_edit(HOT_LANGUAGE, Edit::Scroll(-1000), &[], languages);
    assert_eq!(d.lang.scroll, max, "cannot scroll past the last screenful");
}

#[test]
fn the_stepper_buttons_scroll_without_closing_the_list() {
    let cfg = config();
    let mut d = SettingsDraft::from_config(&cfg);
    let languages = &languages()[..];

    d.on_click(HOT_LANGUAGE, &[], languages);
    assert!(d.lang.open, "the list must be open to start with");
    d.lang.scroll = 4;

    d.on_click(HOT_SCROLL_UP, &[], languages);
    assert!(d.lang.open, "a stepper must not dismiss the list");
    assert_eq!(d.lang.scroll, 3, "up steps one line toward the top");

    d.on_click(HOT_SCROLL_DOWN, &[], languages);
    assert!(d.lang.open);
    assert_eq!(d.lang.scroll, 4, "down steps one line back");
}

#[test]
fn the_track_pages_the_list() {
    let cfg = config();
    let mut d = SettingsDraft::from_config(&cfg);
    let languages = &languages()[..];

    d.on_click(HOT_LANGUAGE, &[], languages);
    d.lang.scroll = 0;

    d.on_click(HOT_SCROLL_PAGE_DOWN, &[], languages);
    assert!(d.lang.open, "paging must not dismiss the list");
    assert_eq!(
        d.lang.scroll, DROPDOWN_PAGE,
        "a page is a screenful less the overlapping line"
    );

    d.on_click(HOT_SCROLL_PAGE_UP, &[], languages);
    assert_eq!(d.lang.scroll, 0, "and back again");
}

#[test]
fn clicking_the_thumb_does_not_jump_the_list() {
    let cfg = config();
    let mut d = SettingsDraft::from_config(&cfg);
    let languages = &languages()[..];

    d.on_click(HOT_LANGUAGE, &[], languages);
    d.lang.scroll = 6;
    d.on_click(HOT_SCROLL_THUMB, &[], languages);
    assert!(d.lang.open, "the thumb must not dismiss the list");
    assert_eq!(
        d.lang.scroll, 6,
        "the thumb scrolls by dragging, not by clicking"
    );
}

#[test]
fn a_drag_positions_the_list_and_clamps() {
    let cfg = config();
    let mut d = SettingsDraft::from_config(&cfg);
    let languages = &languages()[..];
    let n = languages.len();
    let max = n - DROPDOWN_MAX_VISIBLE;

    d.on_click(HOT_LANGUAGE, &[], languages);
    d.on_list_edit(HOT_LANGUAGE, Edit::ScrollTo(3), &[], languages);
    assert_eq!(d.lang.scroll, 3, "a drag sets the offset directly");

    d.on_list_edit(HOT_LANGUAGE, Edit::ScrollTo(9_999), &[], languages);
    assert_eq!(
        d.lang.scroll, max,
        "a drag cannot run past the last screenful"
    );
}

#[test]
fn a_scrollbar_click_with_no_list_open_does_nothing() {
    let cfg = config();
    let mut d = SettingsDraft::from_config(&cfg);
    let languages = &languages()[..];

    assert!(!d.lang.open, "no list open to begin with");
    d.lang.scroll = 7;
    for id in [
        HOT_SCROLL_UP,
        HOT_SCROLL_DOWN,
        HOT_SCROLL_PAGE_UP,
        HOT_SCROLL_PAGE_DOWN,
    ] {
        d.on_click(id, &[], languages);
        assert_eq!(
            d.lang.scroll, 7,
            "id {id:?} moved a list that was not showing"
        );
        assert!(!d.lang.open, "id {id:?} opened a list");
    }
}

#[test]
fn the_scrollbar_drives_the_list_that_is_open() {
    let cfg = config();
    let mut d = SettingsDraft::from_config(&cfg);
    let languages = &languages()[..];
    let themes: Vec<Builtin> = (0..DROPDOWN_MAX_VISIBLE * 2)
        .map(|i| Builtin::ALL[i % Builtin::ALL.len()])
        .collect();

    d.on_click(HOT_THEME, &themes, languages);
    assert!(
        d.theme_list.open,
        "the theme list must be open to start with"
    );
    d.theme_list.scroll = 0;
    d.lang.scroll = 7;

    d.on_click(HOT_SCROLL_PAGE_DOWN, &themes, languages);
    assert!(d.theme_list.open, "paging must not dismiss the list");
    assert_eq!(
        d.theme_list.scroll, DROPDOWN_PAGE,
        "the bar belongs to the list on screen, and that is the theme list"
    );
    assert_eq!(
        d.lang.scroll, 7,
        "the language list is not showing and must not have moved"
    );
}

#[test]
fn opening_the_list_reveals_the_current_choice() {
    let mut cfg = config();
    let languages = &languages()[..];
    let last = languages.len() - 1;
    cfg.language = languages[last].code.to_owned();

    let mut d = SettingsDraft::from_config(&cfg);
    d.on_click(HOT_LANGUAGE, &[], languages);
    assert_eq!(d.lang.highlight, Some(last));
    assert!(
        last >= d.lang.scroll && last < d.lang.scroll + DROPDOWN_MAX_VISIBLE,
        "the selected language must be visible when the list opens"
    );
}

#[test]
fn opening_one_list_closes_the_other() {
    let cfg = config();
    let mut d = SettingsDraft::from_config(&cfg);
    let languages = &languages()[..];
    d.on_click(HOT_LANGUAGE, &[], languages);
    assert!(d.lang.open);
    d.on_click(HOT_LOG_LEVEL, &[], languages);
    assert!(d.log.open);
    assert!(!d.lang.open, "two lists open at once would overlap");
}

#[test]
fn option_ids_are_distinct_from_control_ids() {
    for base in [HOT_LANGUAGE, HOT_LOG_LEVEL] {
        for index in 0..30usize {
            let id = base.option(index);
            assert_eq!(id.split_option(), Some((base, index)));
        }
    }
    for id in [
        HOT_INTERVAL,
        HOT_LANGUAGE,
        HOT_LOG_LEVEL,
        HOT_OK,
        HOT_CANCEL,
        HOT_THEME,
    ] {
        assert_eq!(
            id.split_option(),
            None,
            "control id {id:?} parses as an option id"
        );
    }
}

#[test]
fn every_language_option_has_a_latin_label() {
    for l in &languages() {
        let item = language_item(l);
        assert!(
            !item.label.is_empty(),
            "{}: every option needs a Latin label",
            l.code
        );
    }
}

#[test]
fn clicking_an_option_selects_it() {
    let cfg = config();
    let mut d = SettingsDraft::from_config(&cfg);
    let languages = &languages()[..];

    d.on_click(HOT_LANGUAGE, &[], languages);
    assert!(d.lang.open);

    let target = 3usize;
    let click = HOT_LANGUAGE.option(target);
    let action = d.on_click(click, &[], languages);
    assert!(matches!(action, Action::Changed), "the click must be taken");
    assert_eq!(d.language, languages[target].code);
    assert!(!d.lang.open);
}

#[test]
fn hovering_moves_the_highlight() {
    let cfg = config();
    let mut d = SettingsDraft::from_config(&cfg);
    let languages = &languages()[..];
    d.on_click(HOT_LANGUAGE, &[], languages);

    d.on_list_edit(HOT_LANGUAGE, Edit::Hover(4), &[], languages);
    assert_eq!(d.lang.highlight, Some(4));
    assert_eq!(d.language, cfg.language, "hovering must not choose");

    d.on_click(HOT_LANGUAGE.option(4), &[], languages);
    assert_eq!(d.language, languages[4].code);
}

#[test]
fn hovering_does_not_scroll() {
    let cfg = config();
    let mut d = SettingsDraft::from_config(&cfg);
    let languages = &languages()[..];
    d.on_click(HOT_LANGUAGE, &[], languages);
    d.lang.scroll = 5;
    d.on_list_edit(HOT_LANGUAGE, Edit::Hover(6), &[], languages);
    assert_eq!(d.lang.scroll, 5);
}

#[test]
fn clicking_bare_background_closes_an_open_list() {
    let cfg = config();
    let mut d = SettingsDraft::from_config(&cfg);
    let languages = &languages()[..];
    let before = d.language.clone();

    d.on_click(HOT_LANGUAGE, &[], languages);
    assert!(d.lang.open);

    let action = d.on_click(HotspotId::nothing(), &[], languages);
    assert!(!d.lang.open, "a click on nothing must dismiss the list");
    assert!(
        matches!(action, Action::Changed),
        "the dismissal needs a repaint"
    );
    assert_eq!(d.language, before, "dismissing must not choose");
}

#[test]
fn dismissing_a_list_clears_its_highlight() {
    let cfg = config();
    let mut d = SettingsDraft::from_config(&cfg);
    let languages = &languages()[..];
    d.on_click(HOT_LANGUAGE, &[], languages);
    d.on_list_edit(HOT_LANGUAGE, Edit::Highlight(Move::Next), &[], languages);
    assert!(d.lang.highlight.is_some());

    d.on_click(HotspotId::nothing(), &[], languages);
    assert_eq!(d.lang.highlight, None);
}

#[test]
fn the_tab_ring_follows_the_dialog_and_drops_hidden_switches() {
    let locale = english();
    let theme = Theme::default_theme(icons());
    let languages = &languages()[..];

    let mut cfg = config();
    cfg.switches.notifications_enabled = false;
    let off = SettingsDraft::from_config(&cfg);
    let quiet_rows = off.rows(&locale, &theme, &[], languages);
    let quiet: Vec<_> = ring(&quiet_rows);

    cfg.switches.notifications_enabled = true;
    let on = SettingsDraft::from_config(&cfg);
    let loud_rows = on.rows(&locale, &theme, &[], languages);
    let loud: Vec<_> = ring(&loud_rows);

    assert_eq!(
        quiet,
        vec![
            HOT_INTERVAL,
            HOT_LANGUAGE,
            HOT_THEME,
            HOT_LOG_LEVEL,
            HOT_START_MINIMIZED,
            HOT_NOTIFICATIONS,
            HOT_OK,
            HOT_CANCEL,
        ],
        "with notifications off the ring is the visible controls, in order"
    );
    assert_eq!(
        loud.len(),
        quiet.len() + SettingsDraft::event_switches().len(),
        "every event switch joins the ring when it is shown"
    );
    for (_, id) in SettingsDraft::event_switches() {
        assert!(loud.contains(&id), "a shown switch is reachable by Tab");
        assert!(!quiet.contains(&id), "a hidden switch is not");
    }
    assert_eq!(
        initial(&on.rows(&locale, &theme, &[], languages)),
        Some(HOT_CANCEL)
    );
}

#[test]
fn event_switches_are_nested_under_the_master_switch() {
    let mut cfg = config();
    cfg.switches.notifications_enabled = true;
    let d = SettingsDraft::from_config(&cfg);
    let locale = english();
    let theme = Theme::default_theme(icons());
    let rows = d.rows(&locale, &theme, &[], &languages());

    let master = rows
        .iter()
        .find_map(|r| match r {
            Row::Checkbox { depth, id, .. } if *id == HOT_NOTIFICATIONS => Some(*depth),
            _ => None,
        })
        .expect("the master switch is present");
    assert_eq!(master, 0, "the master switch is not nested");

    for (_, id) in SettingsDraft::event_switches() {
        let (depth, label) = rows
            .iter()
            .find_map(|r| match r {
                Row::Checkbox {
                    depth,
                    id: rid,
                    label,
                    ..
                } if *rid == id => Some((*depth, label.clone())),
                _ => None,
            })
            .expect("every event switch is present");
        assert_eq!(depth, 1, "event switches sit one level in");
        assert!(
            !label.starts_with(' '),
            "the indent must be structural, not spaces in {label:?}"
        );
    }
}

#[test]
fn an_option_does_not_repeat_itself() {
    let en = language_item(&languages()[0]);
    assert_eq!(en.label, "English");
    assert!(en.native.is_empty());
}

#[test]
fn log_level_round_trips_and_respects_validation() {
    let mut cfg = config();
    let mut d = SettingsDraft::from_config(&cfg);
    d.log_level = LogLevel::Debug;
    assert!(d.apply_to(&mut cfg, &locale()));
    assert_eq!(cfg.log_level, LogLevel::Debug);

    let mut d = SettingsDraft::from_config(&cfg);
    d.log_level = LogLevel::Normal;
    set_interval(&mut d, "1");
    assert!(!d.apply_to(&mut cfg, &locale()));
    assert_eq!(
        cfg.log_level,
        LogLevel::Debug,
        "a rejected interval must not let the level through"
    );
}

#[test]
fn every_switch_reaches_the_config() {
    let mut cfg = config();
    let mut d = SettingsDraft::from_config(&cfg);
    for (_, id) in SettingsDraft::event_switches() {
        d.on_click(id, &[], &[]);
    }
    assert!(d.apply_to(&mut cfg, &locale()));

    assert!(!cfg.switches.on_power_failure);
    assert!(!cfg.switches.on_power_restored);
    assert!(!cfg.switches.on_low_battery);
    assert!(!cfg.switches.on_device_fault);
    assert!(!cfg.switches.on_overload);
    assert!(!cfg.switches.on_voltage_out_of_range);
    assert!(!cfg.switches.on_frequency_out_of_range);
    assert!(!cfg.switches.on_runtime_limit);
    assert!(!cfg.switches.on_connection_lost);
    assert!(!cfg.switches.on_connection_restored);
    assert!(!cfg.switches.on_boost_started);
    assert!(!cfg.switches.on_boost_ended);
}

#[test]
fn connection_events_come_last() {
    let ids: Vec<_> = SettingsDraft::event_switches()
        .iter()
        .map(|(_, id)| *id)
        .collect();
    let n = ids.len();
    assert_eq!(
        &ids[n - 2..],
        &[HOT_CONNECTION_LOST, HOT_CONNECTION_RESTORED],
        "the connection pair must be the last two entries"
    );
}

#[test]
fn mains_voltage_and_frequency_are_separate_switches() {
    let ids: Vec<_> = SettingsDraft::event_switches()
        .iter()
        .map(|(_, id)| *id)
        .collect();
    assert!(ids.contains(&HOT_VOLTAGE_OUT_OF_RANGE));
    assert!(ids.contains(&HOT_FREQUENCY_OUT_OF_RANGE));
    assert_ne!(HOT_VOLTAGE_OUT_OF_RANGE, HOT_FREQUENCY_OUT_OF_RANGE);
}

#[test]
fn clicking_the_interval_field_reports_change() {
    let cfg = config();
    let mut d = SettingsDraft::from_config(&cfg);
    let action = d.on_click(HOT_INTERVAL, &[], &[]);
    assert!(matches!(action, Action::Changed));
}

#[test]
fn interval_field_accepts_only_digits() {
    let cfg = config();
    let mut draft = SettingsDraft::from_config(&cfg);
    set_interval(&mut draft, "");
    draft.on_edit(HOT_INTERVAL, Edit::Insert('4'));
    draft.on_edit(HOT_INTERVAL, Edit::Insert('x'));
    draft.on_edit(HOT_INTERVAL, Edit::Insert('2'));
    assert_eq!(draft.interval.text(), "42");
    draft.on_edit(HOT_INTERVAL, Edit::Backspace);
    assert_eq!(draft.interval.text(), "4");
}

#[test]
fn caret_keys_move_and_insert_at_the_caret() {
    let cfg = config();
    let mut draft = SettingsDraft::from_config(&cfg);
    set_interval(&mut draft, "300");
    draft.on_edit(HOT_INTERVAL, Edit::CaretHome { extend: false });
    draft.on_edit(HOT_INTERVAL, Edit::CaretRight { extend: false });
    draft.on_edit(HOT_INTERVAL, Edit::Insert('9'));
    assert_eq!(draft.interval.text(), "3900");
    assert_eq!(draft.interval.cursor(), 2);
}

#[test]
fn delete_removes_forward() {
    let cfg = config();
    let mut draft = SettingsDraft::from_config(&cfg);
    set_interval(&mut draft, "300");
    draft.on_edit(HOT_INTERVAL, Edit::CaretHome { extend: false });
    draft.on_edit(HOT_INTERVAL, Edit::Delete);
    assert_eq!(draft.interval.text(), "00");
}

#[test]
fn selection_is_replaced_by_typing() {
    let cfg = config();
    let mut draft = SettingsDraft::from_config(&cfg);
    set_interval(&mut draft, "3000");
    draft.on_edit(HOT_INTERVAL, Edit::SelectAll);
    assert_eq!(draft.interval.selection(), Some((0, 4)));
    draft.on_edit(HOT_INTERVAL, Edit::Insert('5'));
    assert_eq!(draft.interval.text(), "5");
    assert_eq!(draft.interval.selection(), None);
}

#[test]
fn caret_to_places_and_extends() {
    let cfg = config();
    let mut draft = SettingsDraft::from_config(&cfg);
    set_interval(&mut draft, "3000");
    draft.on_edit(
        HOT_INTERVAL,
        Edit::CaretTo {
            index: 1,
            extend: false,
        },
    );
    assert_eq!(draft.interval.cursor(), 1);
    assert_eq!(draft.interval.selection(), None);
    draft.on_edit(
        HOT_INTERVAL,
        Edit::CaretTo {
            index: 4,
            extend: true,
        },
    );
    assert_eq!(draft.interval.selection(), Some((1, 4)));
}

#[test]
fn enter_commits_and_escape_cancels() {
    let cfg = config();
    let mut draft = SettingsDraft::from_config(&cfg);
    assert!(matches!(
        draft.on_edit(HOT_INTERVAL, Edit::Commit),
        Action::Commit
    ));
    assert!(matches!(
        draft.on_edit(HOT_INTERVAL, Edit::Cancel),
        Action::Cancel
    ));
}

#[test]
fn toggling_master_switch_flips_state() {
    let cfg = config();
    let mut draft = SettingsDraft::from_config(&cfg);
    let before = draft.switches.notifications_enabled;
    draft.on_click(HOT_NOTIFICATIONS, &[], &[]);
    assert_ne!(draft.switches.notifications_enabled, before);
}

#[test]
fn start_minimized_round_trips_through_the_draft() {
    let mut cfg = config();
    cfg.switches.start_minimized = true;
    let mut draft = SettingsDraft::from_config(&cfg);
    assert!(draft.switches.start_minimized, "draft must start from the config");

    draft.on_click(HOT_START_MINIMIZED, &[], &[]);
    assert!(!draft.switches.start_minimized);
    assert!(draft.apply_to(&mut cfg, &locale()));
    assert!(!cfg.switches.start_minimized, "the choice must reach the config");
}

#[test]
fn start_minimized_is_not_applied_when_validation_fails() {
    let mut cfg = config();
    cfg.switches.start_minimized = true;
    let mut draft = SettingsDraft::from_config(&cfg);
    draft.switches.start_minimized = false;
    set_interval(&mut draft, "1");
    assert!(!draft.apply_to(&mut cfg, &locale()));
    assert!(cfg.switches.start_minimized, "partial save leaked through");
}

#[test]
fn accepts_interval_in_range() {
    let mut cfg = config();
    let mut draft = SettingsDraft::from_config(&cfg);
    set_interval(&mut draft, "5000");
    assert!(draft.apply_to(&mut cfg, &locale()));
    assert_eq!(cfg.poll_interval_ms, 5000);
    assert!(draft.error.is_none());
}

#[test]
fn rejects_out_of_range_without_touching_config() {
    let mut cfg = config();
    let before = cfg.poll_interval_ms;
    let mut draft = SettingsDraft::from_config(&cfg);
    set_interval(&mut draft, "50");
    draft.theme = "changed".into();

    assert!(!draft.apply_to(&mut cfg, &locale()));
    assert!(draft.error.is_some());
    assert_eq!(cfg.poll_interval_ms, before);
    assert_ne!(cfg.theme, "changed");
}

#[test]
fn rejects_non_numeric() {
    let mut cfg = config();
    let mut draft = SettingsDraft::from_config(&cfg);
    for bad in ["", "abc", "10.5", "-1"] {
        set_interval(&mut draft, bad);
        assert!(!draft.apply_to(&mut cfg, &locale()), "should reject {bad:?}");
    }
}

#[test]
fn tolerates_surrounding_whitespace() {
    let mut cfg = config();
    let mut draft = SettingsDraft::from_config(&cfg);
    set_interval(&mut draft, "  3000  ");
    assert!(draft.apply_to(&mut cfg, &locale()));
    assert_eq!(cfg.poll_interval_ms, 3000);
}

#[test]
fn a_closed_list_ignores_every_edit() {
    let cfg = config();
    let languages = &languages()[..];

    for edit in [
        Edit::Commit,
        Edit::Cancel,
        Edit::Highlight(Move::Next),
        Edit::Hover(3),
        Edit::Scroll(1),
        Edit::ScrollTo(2),
    ] {
        let mut d = SettingsDraft::from_config(&cfg);
        assert_eq!(
            d.on_list_edit(HOT_LANGUAGE, edit, &[], languages),
            Action::Nothing,
            "{edit:?} on a closed list"
        );
        assert_eq!(d.language, cfg.language);
        assert_eq!(d.lang.highlight, None);
        assert_eq!(d.lang.scroll, 0);
    }
}

#[test]
fn an_edit_aimed_at_something_that_is_not_a_list_does_nothing() {
    let cfg = config();
    let mut d = SettingsDraft::from_config(&cfg);
    assert_eq!(
        d.on_list_edit(HOT_INTERVAL, Edit::Commit, &[], &[]),
        Action::Nothing
    );
}

#[test]
fn an_empty_list_is_not_indexed() {
    let cfg = config();
    let mut d = SettingsDraft::from_config(&cfg);
    d.lang.open = true;

    assert_eq!(
        d.on_list_edit(HOT_LANGUAGE, Edit::Commit, &[], &[]),
        Action::Nothing
    );
    assert_eq!(
        d.on_list_edit(HOT_LANGUAGE, Edit::Highlight(Move::Next), &[], &[]),
        Action::Nothing
    );
    assert_eq!(d.language, cfg.language);
}

#[test]
fn enter_takes_the_highlight_or_the_first_option_and_never_runs_off_the_end() {
    let cfg = config();
    let languages = &languages()[..];

    let mut unmoved = SettingsDraft::from_config(&cfg);
    unmoved.lang.open = true;
    unmoved.lang.highlight = None;
    assert_eq!(
        unmoved.on_list_edit(HOT_LANGUAGE, Edit::Commit, &[], languages),
        Action::Changed
    );
    let first = languages
        .first()
        .expect("the language table is never empty");
    assert_eq!(unmoved.language, first.code);

    let mut stale = SettingsDraft::from_config(&cfg);
    stale.lang.open = true;
    stale.lang.highlight = Some(999);
    assert_eq!(
        stale.on_list_edit(HOT_LANGUAGE, Edit::Commit, &[], languages),
        Action::Changed
    );
    let last = languages.last().expect("the language table is never empty");
    assert_eq!(stale.language, last.code);
}

#[test]
fn hovering_past_the_end_lands_on_the_last_option() {
    let cfg = config();
    let languages = &languages()[..];
    let mut d = SettingsDraft::from_config(&cfg);
    d.on_click(HOT_LANGUAGE, &[], languages);

    d.on_list_edit(HOT_LANGUAGE, Edit::Hover(999), &[], languages);
    assert_eq!(d.lang.highlight, Some(languages.len() - 1));
}

#[test]
fn a_field_edit_does_not_disturb_an_open_list() {
    let cfg = config();
    let languages = &languages()[..];
    let mut d = SettingsDraft::from_config(&cfg);
    d.on_click(HOT_LANGUAGE, &[], languages);
    let before = d.lang.highlight;

    assert_eq!(
        d.on_list_edit(HOT_LANGUAGE, Edit::Insert('7'), &[], languages),
        Action::Nothing
    );
    assert_eq!(d.lang.highlight, before);
}

#[test]
fn opening_a_list_on_an_unknown_value_starts_at_the_top() {
    let cfg = config();
    let themes = &Builtin::ALL;
    let mut d = SettingsDraft::from_config(&cfg);
    d.theme = "no such theme".into();

    d.on_click(HOT_THEME, themes, &[]);
    assert!(d.theme_list.open);
    assert_eq!(d.theme_list.highlight, Some(0));
    assert_eq!(d.theme_list.scroll, 0);
}

#[test]
fn a_click_on_nothing_with_nothing_open_asks_for_nothing() {
    let cfg = config();
    let mut d = SettingsDraft::from_config(&cfg);
    assert_eq!(
        d.on_click(HotspotId::nothing(), &[], &[]),
        Action::Nothing,
        "no list was open, so there is nothing to redraw"
    );
}
