use ups_monitor::config::{Config, LogLevel, Switches};
use ups_monitor::focus::{contains, is_button, is_dropdown, is_field, owner, ring, step};
use ups_monitor::lang::Locale;
use ups_monitor::row::{Edit, HotspotId, Move, Row};
use ups_monitor::settings;
use ups_monitor::settings::{option_count, plain_item, Action, SettingsDraft};
use ups_monitor::strings::{Key, Language};
use ups_monitor::theme::{dark, Builtin};
use ups_monitor::color::Color;
use ups_monitor::icon::{IconSet, IconSpec};

fn icons() -> IconSet {
    let mark = IconSpec { fill: Color::from_rgb(1, 2, 3), stroke: Color::from_rgb(0, 0, 0) };
    IconSet { normal: mark, on_battery: mark, critical: mark, disconnected: mark, app: mark }
}

fn locale() -> Locale {
    Locale {
        texts: vec![
            (Key::SettingsInvalidInterval, "{} ms is too short".to_owned()),
            (Key::SettingsTitle, "Settings".to_owned()),
            (Key::ThemeDark, "Dark".to_owned()),
        ],
    }
}

fn languages() -> Vec<Language> {
    vec![
        Language { code: "en", english_name: "English", native_name: "English", font: None },
        Language { code: "de", english_name: "German", native_name: "Deutsch", font: None },
    ]
}

fn config() -> Config {
    Config {
        poll_interval_ms: 3000,
        theme: "light".to_owned(),
        language: "de".to_owned(),
        log_level: LogLevel::Debug,
        switches: Switches {
            start_minimized: true,
            notifications_enabled: true,
            on_power_failure: true,
            on_power_restored: false,
            on_low_battery: true,
            on_device_fault: false,
            on_overload: true,
            on_voltage_out_of_range: false,
            on_frequency_out_of_range: true,
            on_runtime_limit: false,
            on_connection_lost: true,
            on_connection_restored: false,
            on_boost_started: true,
            on_boost_ended: false,
        },
    }
}

fn hot(raw: u32) -> HotspotId {
    HotspotId::new(raw)
}

#[test]
fn an_untouched_draft_saves_what_it_was_opened_on() {
    let mut cfg = config();
    let mut d = SettingsDraft::from_config(&cfg);
    assert!(d.apply_to(&mut cfg, &locale()));
    let same = config();
    assert_eq!(cfg.poll_interval_ms, same.poll_interval_ms);
    assert_eq!(cfg.theme, same.theme);
    assert_eq!(cfg.language, same.language);
    assert_eq!(cfg.log_level, same.log_level);
    assert_eq!(cfg.switches, same.switches);
    assert_eq!(d.error, None);
}

#[test]
fn a_rejected_interval_says_so_and_a_good_one_clears_it() {
    let mut cfg = config();
    let mut d = SettingsDraft::from_config(&cfg);
    for _ in 0..3 {
        d.on_edit(hot(settings::HOT_INTERVAL), Edit::Backspace);
    }
    assert!(!d.apply_to(&mut cfg, &locale()));
    assert_eq!(d.error.as_deref(), Some("1000 ms is too short"));
    assert_eq!(cfg.poll_interval_ms, 3000);
    for _ in 0..3 {
        d.on_edit(hot(settings::HOT_INTERVAL), Edit::Insert('0'));
    }
    assert!(d.apply_to(&mut cfg, &locale()));
    assert_eq!(d.error, None);
}

#[test]
fn the_ends_of_the_range_are_in_it() {
    for (text, ok) in [("999", false), ("1000", true), ("60000", true), ("60001", false)] {
        let mut cfg = config();
        let mut d = SettingsDraft::from_config(&cfg);
        d.on_edit(hot(settings::HOT_INTERVAL), Edit::SelectAll);
        for ch in text.chars() {
            d.on_edit(hot(settings::HOT_INTERVAL), Edit::Insert(ch));
        }
        assert_eq!(d.interval.text(), text);
        assert_eq!(d.apply_to(&mut cfg, &locale()), ok, "{text}");
    }
}

#[test]
fn a_switch_toggles_itself_alone() {
    for (_, id) in SettingsDraft::event_switches() {
        let mut d = SettingsDraft::from_config(&config());
        let before: Vec<bool> =
            SettingsDraft::event_switches().iter().map(|(_, i)| d.switch(*i)).collect();
        assert_eq!(d.on_click(id, &[], &[]), Action::Changed);
        for (k, (_, other)) in SettingsDraft::event_switches().iter().enumerate() {
            assert_eq!(d.switch(*other), before[k] != (*other == id), "{id:?} {other:?}");
        }
        d.set_checkbox(id, true);
        assert_eq!(d.checkbox(id), Some(true));
    }
    let d = SettingsDraft::from_config(&config());
    assert_eq!(d.checkbox(hot(settings::HOT_OK)), None);
    assert!(!d.switch(hot(settings::HOT_OK)));
}

#[test]
fn ok_commits_and_cancel_cancels() {
    let mut d = SettingsDraft::from_config(&config());
    assert_eq!(d.on_click(hot(settings::HOT_OK), &[], &[]), Action::Commit);
    assert_eq!(d.on_click(hot(settings::HOT_CANCEL), &[], &[]), Action::Cancel);
}

#[test]
fn a_list_opens_on_the_current_choice() {
    let mut d = SettingsDraft::from_config(&config());
    let languages = languages();
    d.on_click(hot(settings::HOT_LANGUAGE), &Builtin::ALL, &languages);
    assert_eq!(d.open_list(), Some(hot(settings::HOT_LANGUAGE)));
    assert_eq!(d.lang.highlight, Some(1));
    d.on_click(hot(settings::HOT_THEME), &Builtin::ALL, &languages);
    assert_eq!(d.open_list(), Some(hot(settings::HOT_THEME)));
    assert_eq!(d.theme_list.highlight, Some(1));
    d.on_click(hot(settings::HOT_LOG_LEVEL), &Builtin::ALL, &languages);
    assert_eq!(d.open_list(), Some(hot(settings::HOT_LOG_LEVEL)));
    assert_eq!(d.log.highlight, Some(1));
}

#[test]
fn an_option_past_the_end_chooses_nothing() {
    let mut d = SettingsDraft::from_config(&config());
    let languages = languages();
    d.on_click(hot(settings::HOT_LANGUAGE), &[], &languages);
    d.on_click(hot(settings::HOT_LANGUAGE).option(7), &[], &languages);
    assert_eq!(d.language, "de");
}

#[test]
fn a_list_counts_its_own_options() {
    let languages = languages();
    let count = |id: u32| option_count(hot(id), &Builtin::ALL, &languages);
    assert_eq!(count(settings::HOT_LANGUAGE), Some(2));
    assert_eq!(count(settings::HOT_THEME), Some(2));
    assert_eq!(count(settings::HOT_LOG_LEVEL), Some(2));
    assert_eq!(count(settings::HOT_INTERVAL), None);
    let item = plain_item(&locale(), Key::ThemeDark);
    assert_eq!((item.label.as_str(), item.native.as_str(), item.font), ("Dark", "", None));
}

fn rows() -> Vec<Row> {
    let d = SettingsDraft::from_config(&config());
    d.rows(&locale(), &dark(icons()), &Builtin::ALL, &languages())
}

#[test]
fn every_stop_knows_its_control() {
    let rows = rows();
    assert!(is_field(&rows, hot(settings::HOT_INTERVAL)));
    assert!(is_dropdown(&rows, hot(settings::HOT_LANGUAGE)));
    assert!(is_button(&rows, hot(settings::HOT_OK)));
    assert!(!is_button(&rows, hot(settings::HOT_NOTIFICATIONS)));
    for id in ring(&rows) {
        assert!(contains(&rows, id), "{id:?}");
        assert!(owner(&rows, id).is_some(), "{id:?}");
    }
    assert!(owner(&rows, hot(77)).is_none());
    assert!(!is_field(&rows, hot(77)));
}

#[test]
fn a_step_can_be_taken_back() {
    let rows = rows();
    for id in ring(&rows) {
        let ahead = step(&rows, Some(id), false);
        assert_eq!(step(&rows, ahead, true), Some(id));
        let behind = step(&rows, Some(id), true);
        assert_eq!(step(&rows, behind, false), Some(id));
    }
}

#[test]
fn the_error_line_shows_in_the_critical_colour() {
    let theme = dark(icons());
    let mut d = SettingsDraft::from_config(&config());
    let calm = d.rows(&locale(), &theme, &Builtin::ALL, &languages());
    assert!(!calm.iter().any(|r| matches!(r, Row::Notice { .. })));
    d.error = Some("no".to_owned());
    let warned = d.rows(&locale(), &theme, &Builtin::ALL, &languages());
    let notice = Row::Notice { text: "no".to_owned(), color: theme.colors.critical };
    assert!(warned.iter().any(|r| *r == notice));
}

#[test]
fn a_highlight_never_leaves_its_list() {
    let languages = languages();
    let mut d = SettingsDraft::from_config(&config());
    let mut seed: u32 = 7;
    let mut next = |n: u32| {
        seed = seed.wrapping_mul(1_664_525).wrapping_add(1_013_904_223);
        (seed >> 16) % n
    };
    let lists = [settings::HOT_LANGUAGE, settings::HOT_LOG_LEVEL, settings::HOT_THEME];
    for _ in 0..5_000 {
        let list = hot(lists[next(3) as usize]);
        match next(8) {
            0 => d.on_click(list, &Builtin::ALL, &languages),
            1 => d.on_click(list.option(next(4) as usize), &Builtin::ALL, &languages),
            2 => d.on_click(hot(9_990 + next(6)), &Builtin::ALL, &languages),
            3 => d.on_list_edit(list, Edit::Hover(next(9) as usize), &Builtin::ALL, &languages),
            4 => d.on_list_edit(list, Edit::Highlight(Move::Next), &Builtin::ALL, &languages),
            5 => d.on_list_edit(list, Edit::Highlight(Move::PageBack), &Builtin::ALL, &languages),
            6 => d.on_list_edit(list, Edit::Scroll(next(5) as i32 - 2), &Builtin::ALL, &languages),
            _ => d.on_list_edit(list, Edit::Commit, &Builtin::ALL, &languages),
        };
        let open = [d.lang.open, d.log.open, d.theme_list.open];
        assert!(open.iter().filter(|o| **o).count() <= 1, "two lists at once");
        for state in [d.lang, d.log, d.theme_list] {
            assert!(state.highlight.map_or(true, |i| i < 2), "{state:?}");
        }
    }
}
