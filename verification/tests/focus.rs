use ups_monitor::color::Color;
use ups_monitor::config::{Config, LogLevel, Switches};
use ups_monitor::focus::{confirm, contains, initial, ring, step};
use ups_monitor::hid::{BeeperView, Presence};
use ups_monitor::icon::{IconSet, IconSpec};
use ups_monitor::lang::Locale;
use ups_monitor::panel::{build, PanelData};
use ups_monitor::row::{DropdownItem, Gap, HotspotId, Row};
use ups_monitor::settings::SettingsDraft;
use ups_monitor::strings::{Key, Language};
use ups_monitor::theme::{Builtin, Theme};

fn mark(r: u8, g: u8, b: u8) -> IconSpec {
    IconSpec { fill: Color::from_rgb(r, g, b), stroke: Color::from_rgb(0, 0, 0) }
}

fn icons() -> IconSet {
    IconSet {
        normal: mark(0x34, 0xC7, 0x59),
        on_battery: mark(0xFF, 0x9F, 0x0A),
        critical: mark(0xFF, 0x3B, 0x30),
        disconnected: mark(0x8E, 0x8E, 0x93),
        app: mark(0x0A, 0x84, 0xFF),
    }
}

fn english() -> Locale {
    let texts = [
        (Key::PanelTitle, "UPS Monitor"),
        (Key::PanelGroupInput, "Input"),
        (Key::PanelGroupOutput, "Output"),
        (Key::PanelGroupBattery, "Battery"),
        (Key::PanelGroupStatus, "Status"),
        (Key::PanelGroupDevice, "Device"),
        (Key::PanelState, "Power"),
        (Key::PanelInputVoltage, "Input voltage"),
        (Key::PanelInputNominal, "Rated input"),
        (Key::PanelTransferWindow, "Transfer window"),
        (Key::PanelOutputVoltage, "Output voltage"),
        (Key::PanelLoadPercent, "Load"),
        (Key::PanelLoadWatts, "Load (W)"),
        (Key::PanelLoadVa, "Load (VA)"),
        (Key::PanelCharge, "Charge"),
        (Key::PanelBatteryVoltage, "Battery voltage"),
        (Key::PanelBatteryNominal, "Rated battery"),
        (Key::PanelRuntime, "Runtime"),
        (Key::PanelChargeState, "Charge state"),
        (Key::PanelCapacityLimit, "Low-charge threshold"),
        (Key::PanelWarningCapacity, "Warning threshold"),
        (Key::PanelRuntimeLimit, "Runtime threshold"),
        (Key::PanelModel, "Model"),
        (Key::PanelFirmware, "Firmware"),
        (Key::PanelSerial, "Serial number"),
        (Key::PanelNominalPower, "Rated power"),
        (Key::PanelManufacturer, "Manufacturer"),
        (Key::PanelBeeper, "Buzzer"),
        (Key::PanelChemistry, "Battery type"),
        (Key::PanelLastTest, "Last test"),
        (Key::PanelSelfTest, "Self-test"),
        (Key::MenuSettings, "Settings"),
        (Key::StateDisconnected, "Disconnected"),
        (Key::StateOnline, "On mains"),
        (Key::StateOnBattery, "On battery"),
        (Key::StateFullyCharged, "Fully charged"),
        (Key::StateCharging, "Charging"),
        (Key::StateDischarging, "Discharging"),
        (Key::StateIdle, "Idle"),
        (Key::ErrorDeviceNotFound, "Device not found."),
        (Key::ErrorDeviceNotFoundHint, "Check the UPS is connected over USB and seen as a HID device by Windows."),
        (Key::UnitVolt, "V"),
        (Key::UnitWatt, "W"),
        (Key::UnitVoltAmp, "VA"),
        (Key::UnitPercent, "%"),
        (Key::UnitMinutes, "min"),
        (Key::FlagLowBattery, "Battery low"),
        (Key::FlagRuntimeLimitExpired, "Runtime limit expired"),
        (Key::FlagInternalFailure, "Internal failure"),
        (Key::FlagOverload, "Overload"),
        (Key::FlagVoltageOutOfRange, "Mains voltage out of range"),
        (Key::FlagFrequencyOutOfRange, "Mains frequency out of range"),
        (Key::FlagBoost, "Voltage boost active"),
        (Key::BeeperUnsupported, "Unsupported"),
        (Key::BeeperDisabled, "Disabled"),
        (Key::BeeperEnabled, "Enabled"),
        (Key::BeeperMuted, "Muted"),
        (Key::BeeperEnable, "Enable"),
        (Key::BeeperDisable, "Disable"),
        (Key::TestTestPassed, "Passed"),
        (Key::TestTestPassedWarning, "Passed with a warning"),
        (Key::TestTestError, "Failed"),
        (Key::TestTestAborted, "Aborted"),
        (Key::TestTestInProgress, "In progress"),
        (Key::TestTestNotRun, "Not run"),
        (Key::TestTestScheduled, "Scheduled"),
        (Key::TestTestUnknown, "Unknown"),
        (Key::SettingsTitle, "Settings"),
        (Key::SettingsPollInterval, "Poll interval, ms"),
        (Key::SettingsLanguage, "Language"),
        (Key::SettingsTheme, "Theme"),
        (Key::SettingsLogLevel, "Log level"),
        (Key::SettingsLogNormal, "Normal"),
        (Key::SettingsLogDebug, "Debug"),
        (Key::SettingsStartMinimized, "Start minimised"),
        (Key::SettingsNotifications, "Notifications"),
        (Key::SettingsOnPowerFailure, "Power failure"),
        (Key::SettingsOnPowerRestored, "Power restored"),
        (Key::SettingsOnLowBattery, "Low battery"),
        (Key::SettingsOnRuntimeLimit, "Runtime limit"),
        (Key::SettingsOnDeviceFault, "Device fault"),
        (Key::SettingsOnOverload, "Overload"),
        (Key::SettingsOnVoltageOutOfRange, "Voltage out of range"),
        (Key::SettingsOnFrequencyOutOfRange, "Frequency out of range"),
        (Key::SettingsOnBoostStarted, "Boost started"),
        (Key::SettingsOnBoostEnded, "Boost ended"),
        (Key::SettingsOnConnectionLost, "Connection lost"),
        (Key::SettingsOnConnectionRestored, "Connection restored"),
        (Key::SettingsOk, "OK"),
        (Key::SettingsCancel, "Cancel"),
        (Key::SettingsInvalidInterval, "Interval must be between {} and 60000 ms"),
        (Key::ThemeDark, "Dark"),
        (Key::ThemeLight, "Light"),
    ];
    Locale { texts: texts.iter().map(|(key, text)| (*key, (*text).to_owned())).collect() }
}

/// The languages of the interface, English first.
fn languages() -> Vec<Language> {
    [
        ("en", "English", "English", None),
        ("bg", "Bulgarian", "Български", None),
        ("cs", "Czech", "Čeština", None),
        ("da", "Danish", "Dansk", None),
        ("de", "German", "Deutsch", None),
        ("el", "Greek", "Ελληνικά", None),
        ("es", "Spanish", "Español", None),
        ("fi", "Finnish", "Suomi", None),
        ("fr", "French", "Français", None),
        ("hu", "Hungarian", "Magyar", None),
        ("it", "Italian", "Italiano", None),
        ("ja", "Japanese", "日本語", Some("Yu Gothic UI")),
        ("ko", "Korean", "한국어", Some("Malgun Gothic")),
        ("nl", "Dutch", "Nederlands", None),
        ("pl", "Polish", "Polski", None),
        ("pt", "Portuguese", "Português", None),
        ("ro", "Romanian", "Română", None),
        ("ru", "Russian", "Русский", None),
        ("sv", "Swedish", "Svenska", None),
        ("tr", "Turkish", "Türkçe", None),
        ("uk", "Ukrainian", "Українська", None),
        ("vi", "Vietnamese", "Tiếng Việt", None),
        ("zh-hans", "Chinese (Simplified)", "简体中文", Some("Microsoft YaHei")),
        ("zh-hant", "Chinese (Traditional)", "繁體中文", Some("Microsoft JhengHei")),
    ]
    .iter()
    .map(|(code, english_name, native_name, font)| Language {
        code,
        english_name,
        native_name,
        font: *font,
    })
    .collect()
}

fn config() -> Config {
    Config {
        poll_interval_ms: 3000,
        theme: "dark".to_owned(),
        language: "en".to_owned(),
        log_level: LogLevel::Normal,
        switches: Switches {
            start_minimized: false,
            notifications_enabled: true,
            on_power_failure: true,
            on_power_restored: true,
            on_low_battery: true,
            on_device_fault: true,
            on_overload: true,
            on_voltage_out_of_range: true,
            on_frequency_out_of_range: true,
            on_runtime_limit: true,
            on_connection_lost: true,
            on_connection_restored: true,
            on_boost_started: true,
            on_boost_ended: true,
        },
    }
}

#[test]
fn a_window_never_offers_two_rows_of_buttons() {
    fn button_rows(rows: &[Row]) -> usize {
        rows.iter()
            .filter(|r| matches!(r, Row::Buttons { .. }))
            .count()
    }

    let locale = english();
    let theme = Theme::default_theme(icons());

    let settings =
        SettingsDraft::from_config(&config()).rows(&locale, &theme, &Builtin::ALL, &languages());
    assert!(
        button_rows(&settings) <= 1,
        "the settings dialog builds {} rows of buttons",
        button_rows(&settings)
    );

    let panel = build(
        &locale,
        &theme,
        &PanelData {
            reading: None,
            identity: None,
            presence: Presence::Unprobed,
            beeper: BeeperView::Unknown,
            warnings: Vec::new(),
            self_test_running: false,
            probing: false,
        },
    );
    assert!(
        button_rows(&panel) <= 1,
        "the status panel builds {} rows of buttons",
        button_rows(&panel)
    );
}

fn hot(raw: u32) -> HotspotId {
    HotspotId::new(raw)
}

fn field(id: HotspotId) -> Row {
    Row::Field {
        label: String::new(),
        value: String::new(),
        caret: 0,
        sel_start: 0,
        sel_end: 0,
        id,
    }
}

fn checkbox(id: HotspotId) -> Row {
    Row::Checkbox {
        label: String::new(),
        checked: false,
        depth: 0,
        id,
    }
}

fn dropdown(id: HotspotId) -> Row {
    Row::Dropdown {
        label: String::new(),
        options: vec![DropdownItem {
            label: "a".into(),
            native: String::new(),
            font: None,
        }],
        selected: 0,
        highlighted: 0,
        open: false,
        scroll: 0,
        id,
    }
}

fn labeled_button(id: HotspotId, enabled: bool) -> Row {
    Row::LabeledButton {
        label: String::new(),
        value: String::new(),
        color: Color::from_rgb(0, 0, 0),
        button: String::new(),
        id,
        enabled,
    }
}

fn buttons(left_id: HotspotId, right_id: HotspotId) -> Row {
    Row::Buttons {
        left: String::new(),
        left_id,
        right: String::new(),
        right_id,
    }
}

fn dialog() -> Vec<Row> {
    vec![
        Row::Header("t".into()),
        Row::Space(Gap::Half),
        field(hot(1)),
        dropdown(hot(2)),
        checkbox(hot(3)),
        buttons(hot(4), hot(5)),
    ]
}

#[test]
fn the_ring_follows_the_drawing_order() {
    assert_eq!(
        ring(&dialog()),
        vec![hot(1), hot(2), hot(3), hot(4), hot(5)]
    );
}

#[test]
fn both_dialog_buttons_are_in_the_ring() {
    let ids: Vec<HotspotId> = ring(&[buttons(hot(10), hot(11))]);
    assert_eq!(ids, vec![hot(10), hot(11)]);
}

#[test]
fn a_disabled_button_is_skipped() {
    let rows = vec![labeled_button(hot(7), false), labeled_button(hot(8), true)];
    assert_eq!(ring(&rows), vec![hot(8)]);
}

#[test]
fn tab_wraps_at_both_ends() {
    let rows = dialog();
    assert_eq!(step(&rows, Some(hot(1)), false), Some(hot(2)));
    assert_eq!(step(&rows, Some(hot(5)), false), Some(hot(1)));
    assert_eq!(step(&rows, Some(hot(1)), true), Some(hot(5)));
    assert_eq!(step(&rows, Some(hot(2)), true), Some(hot(1)));
}

#[test]
fn the_first_tab_from_cancel_reaches_the_first_control() {
    let rows = dialog();
    let start = initial(&rows);
    assert_eq!(start, Some(hot(5)));
    assert_eq!(step(&rows, start, false), Some(hot(1)));
}

#[test]
fn tab_enters_the_ring_from_either_end() {
    let rows = dialog();
    assert_eq!(step(&rows, None, false), Some(hot(1)));
    assert_eq!(step(&rows, None, true), Some(hot(5)));
}

#[test]
fn a_vanished_control_does_not_trap_the_walk() {
    let rows = dialog();
    assert!(!contains(&rows, hot(99)));
    assert_eq!(step(&rows, Some(hot(99)), false), Some(hot(1)));
}

#[test]
fn a_window_without_controls_has_no_focus() {
    let rows = vec![Row::Header("t".into()), Row::Space(Gap::Single)];
    assert_eq!(ring(&rows), Vec::<HotspotId>::new());
    assert_eq!(step(&rows, None, false), None);
    assert_eq!(initial(&rows), None);
    assert_eq!(confirm(&rows), None);
}

#[test]
fn a_window_without_a_button_row_opens_unfocused() {
    let rows = vec![
        Row::TitleButton {
            title: String::new(),
            button: String::new(),
            id: HotspotId::new(20),
        },
        labeled_button(hot(21), true),
    ];
    assert_eq!(ring(&rows), vec![hot(20), hot(21)]);
    assert_eq!(initial(&rows), None);
    assert_eq!(confirm(&rows), None);
}

#[test]
fn the_button_pair_names_both_roles() {
    let rows = dialog();
    assert_eq!(confirm(&rows), Some(hot(4)));
    assert_eq!(initial(&rows), Some(hot(5)));
}
