use ups_monitor::color::Color;
use ups_monitor::dpi::Dpi;
use ups_monitor::fingerprint::text_fingerprint;
use ups_monitor::icon::{IconSet, IconSpec};
use ups_monitor::layout::{
    content_size, measure_content, text_column_width, Columns, Measured, PanelContent, SizeCache,
    SizeKey,
};
use ups_monitor::rect::Rect;
use ups_monitor::row::{DropdownItem, Gap, HotspotId, Row};
use ups_monitor::text::{
    item_pieces, line_pieces, line_start, line_total, needs_script_pass, piece_starts,
    script_runs, FontCache, Script, TextMetrics, TextModel, ZeroMetrics, SCRIPT_FONT_CEILING,
};
use ups_monitor::theme::{dark, Theme};

fn icons() -> IconSet {
    let mark = IconSpec { fill: Color::from_rgb(1, 2, 3), stroke: Color::from_rgb(0, 0, 0) };
    IconSet { normal: mark, on_battery: mark, critical: mark, disconnected: mark, app: mark }
}

fn theme() -> Theme {
    dark(icons())
}

fn script(family: Option<&'static str>) -> Script {
    Script { family, dpi: Dpi::new(96), centipoints: 1125 }
}

/// Seven pixels a character, and a count of how often it was asked.
struct Counting {
    asked: usize,
}

impl TextMetrics for Counting {
    fn model(&self) -> TextModel {
        unreachable!("asked only by proofs")
    }

    fn line_width(&mut self, text: &str, _bold: bool) -> i32 {
        self.asked += 1;
        text.chars().count() as i32 * 7
    }

    fn option_width(&mut self, item: &DropdownItem) -> i32 {
        self.asked += 1;
        item.label.chars().count() as i32 * 7
    }

    fn wrapped_height(&mut self, _text: &str, _width: i32) -> i32 {
        self.asked += 1;
        21
    }
}

fn pair(label: &str, value: &str) -> Row {
    Row::Pair { label: label.to_owned(), value: value.to_owned(), color: Color::transparent() }
}

fn list(selected: usize, highlighted: usize, open: bool, scroll: usize) -> Row {
    let item = |label: &str| DropdownItem {
        label: label.to_owned(),
        native: String::new(),
        font: None,
    };
    Row::Dropdown {
        label: "Theme".to_owned(),
        options: vec![item("Dark"), item("Light")],
        selected,
        highlighted,
        open,
        scroll,
        id: HotspotId::new(106),
    }
}

#[test]
fn a_line_is_split_only_for_a_language_with_its_own_font() {
    assert_eq!(line_pieces("负载 (W)", false), vec![("负载 (W)".to_owned(), false)]);
    assert_eq!(line_pieces("Load (W)", true), vec![("Load (W)".to_owned(), false)]);
    assert_eq!(line_pieces("负载 (W)", true), script_runs("负载 (W)"));
    assert!(needs_script_pass(&script_runs("负载 (W)")));
    assert!(needs_script_pass(&script_runs("负载")));
    assert!(!needs_script_pass(&script_runs("Load")));
    assert!(!needs_script_pass(&script_runs("")));
}

#[test]
fn runs_alternate_between_the_two_fonts() {
    for text in ["AVR 启用", "日本語 66 分", "a一b二c", "  一", "一  "] {
        let runs = script_runs(text);
        for pair in runs.windows(2) {
            assert_ne!(pair[0].1, pair[1].1, "{text:?}: {runs:?}");
        }
        for (run, _) in &runs {
            assert!(!run.is_empty(), "{text:?}: {runs:?}");
        }
    }
}

#[test]
fn the_pieces_of_a_line_follow_each_other() {
    assert_eq!(piece_starts(10, &vec![3, 4, 5]), vec![10, 13, 17]);
    assert_eq!(piece_starts(10, &vec![]), Vec::<i32>::new());
    assert_eq!(line_total(&vec![3, 4, 5]), 12);
    assert_eq!(line_total(&vec![]), 0);
}

#[test]
fn a_centred_line_has_its_slack_on_both_sides() {
    let area = Rect::new(10, 0, 110, 20);
    assert_eq!(line_start(area, 40, true), 40);
    assert_eq!(line_start(area, 41, true), 39);
    assert_eq!(line_start(area, 140, true), -10);
    assert_eq!(line_start(area, 40, false), 10);
}

#[test]
fn an_option_spells_its_native_name_in_its_own_font() {
    let item = DropdownItem {
        label: "Japanese".to_owned(),
        native: "日本語".to_owned(),
        font: Some("Yu Gothic UI"),
    };
    assert_eq!(
        item_pieces(&item, script(Some("Malgun Gothic"))),
        vec![
            ("Japanese (".to_owned(), Some("Malgun Gothic")),
            ("日本語".to_owned(), Some("Yu Gothic UI")),
            (")".to_owned(), Some("Malgun Gothic")),
        ]
    );
    let plain = DropdownItem { native: String::new(), ..item };
    assert_eq!(item_pieces(&plain, script(None)), vec![("Japanese".to_owned(), None)]);
}

#[test]
fn a_font_is_made_once_for_a_family_and_a_height() {
    let mut cache: FontCache<u32> = FontCache::new();
    assert_eq!(cache.find("Segoe UI", -15), None);
    assert!(!cache.insert("Segoe UI", -15, 1));
    assert!(!cache.insert("Malgun Gothic", -15, 2));
    assert!(!cache.insert("Segoe UI", -23, 3));
    assert_eq!(cache.find("Segoe UI", -15), Some(1));
    assert_eq!(cache.find("Malgun Gothic", -15), Some(2));
    assert_eq!(cache.find("Segoe UI", -23), Some(3));
    assert_eq!(cache.find("Malgun Gothic", -23), None);
}

#[test]
fn outgrowing_the_font_cache_is_reported_once() {
    let mut cache: FontCache<usize> = FontCache::new();
    let reports: Vec<usize> = (0..SCRIPT_FONT_CEILING + 5)
        .filter(|n| cache.insert("Segoe UI", -(*n as i32), *n))
        .collect();
    assert_eq!(reports, vec![SCRIPT_FONT_CEILING]);
    assert_eq!(cache.find("Segoe UI", -3), Some(3));
}

#[test]
fn a_measurement_is_made_once() {
    let t = theme().scaled(Dpi::new(96));
    let mut cache = SizeCache::new();
    let mut m = Counting { asked: 0 };
    let rows = vec![pair("Model", "CP1350"), list(0, 0, false, 0)];
    let samples = vec![pair("", "0000 V")];

    let first = content_size(&mut cache, &rows, &samples, &t, script(None), 320, &mut m);
    let asked = m.asked;
    assert!(asked > 0);
    assert_eq!(first, measure_content(&rows, &samples, &t, 320, &mut m));

    let asked = m.asked;
    let moved = vec![pair("Model", "CP1350"), list(1, 1, true, 1)];
    let again = content_size(&mut cache, &moved, &samples, &t, script(None), 320, &mut m);
    assert_eq!(again, first);
    assert_eq!(m.asked, asked, "scrolling a list measures nothing");

    let longer = vec![pair("Model", "CP1350EPFCLCD"), list(0, 0, false, 0)];
    content_size(&mut cache, &longer, &samples, &t, script(None), 320, &mut m);
    assert!(m.asked > asked, "a new text is measured");
}

#[test]
fn everything_a_measurement_depends_on_is_in_its_key() {
    let t = theme().scaled(Dpi::new(96));
    let rows = vec![pair("Model", "CP1350")];
    let mut cache = SizeCache::new();
    let mut m = Counting { asked: 0 };
    content_size(&mut cache, &rows, &[], &t, script(None), 320, &mut m);

    let mut last = m.asked;
    content_size(&mut cache, &rows, &[], &t, script(Some("Yu Gothic UI")), 320, &mut m);
    assert!(m.asked > last, "another family");
    last = m.asked;
    content_size(&mut cache, &rows, &[], &t, script(None), 400, &mut m);
    assert!(m.asked > last, "another floor");
    last = m.asked;
    content_size(&mut cache, &rows, &[pair("", "0000 V")], &t, script(None), 320, &mut m);
    assert!(m.asked > last, "other samples");
    last = m.asked;
    content_size(&mut cache, &rows, &[], &t, script(None), 320, &mut m);
    assert_eq!(m.asked, last, "the first is still remembered");
}

#[test]
fn the_least_recently_used_size_is_forgotten() {
    let key = |text: u64| SizeKey { text, script: script(None), min_width: 320 };
    let size = |width: i32| Measured {
        width,
        height: 1,
        columns: Columns { half: 0, wide_single: 0, action_button: 0 },
    };
    let mut cache = SizeCache::new();
    for n in 0..4 {
        cache.store(key(n), size(n as i32));
    }
    assert_eq!(cache.lookup(key(0)), Some(size(0)));
    cache.store(key(9), size(9));
    assert_eq!(cache.lookup(key(1)), None, "the oldest untouched entry is gone");
    for n in [0, 2, 3, 9] {
        assert_eq!(cache.lookup(key(n)), Some(size(n as i32)));
    }
}

#[test]
fn what_is_not_measured_is_not_in_the_fingerprint() {
    let t = theme().scaled(Dpi::new(96));
    let print = |row: Row| text_fingerprint(&[row], &t);
    assert_eq!(print(list(0, 0, false, 0)), print(list(1, 1, true, 1)));
    let button = |enabled: bool, button: &str| Row::LabeledButton {
        label: "Buzzer".to_owned(),
        value: "Enabled".to_owned(),
        color: Color::transparent(),
        button: button.to_owned(),
        id: HotspotId::new(1),
        enabled,
    };
    assert_eq!(print(button(true, "Disable")), print(button(false, "Disable")));
    assert_ne!(print(button(true, "Disable")), print(button(true, "Enable")));
    assert_ne!(print(pair("ab", "c")), print(pair("a", "bc")));
    assert_ne!(print(Row::Header("x".to_owned())), print(pair("x", "")));
    assert_ne!(print(Row::Space(Gap::Half)), print(Row::Space(Gap::Single)));
}

#[test]
fn the_panel_keeps_what_it_was_measured_from() {
    let t = theme();
    let mut cache = SizeCache::new();
    let mut m = Counting { asked: 0 };
    let panel = PanelContent::measure(
        &mut cache,
        vec![pair("Model", "CP1350")],
        vec![pair("", "0000 V")],
        &t,
        320,
        script(None),
        &mut m,
    );
    assert_eq!(panel.rows, vec![pair("Model", "CP1350")]);
    assert_eq!(panel.samples, vec![pair("", "0000 V")]);
    assert_eq!(panel.width, 320, "the floor of a narrow panel");
    assert_eq!(panel.columns.action_button, t.metrics.button_min_width);
    let line = text_column_width(panel.width, panel.columns, &t.scaled(Dpi::new(96)));
    assert_eq!(line, 320 - t.metrics.padding * 2);
}

#[test]
fn the_floor_scales_with_the_monitor() {
    let t = theme();
    let mut cache = SizeCache::new();
    let mut m = ZeroMetrics;
    let at = Script { family: None, dpi: Dpi::new(192), centipoints: 1125 };
    let panel =
        PanelContent::measure(&mut cache, vec![pair("a", "b")], vec![], &t, 320, at, &mut m);
    assert_eq!(panel.width, 640);
}

#[test]
fn a_panel_is_measured_the_same_whether_or_not_it_might_not_fit() {
    let t = theme();
    let rows = || vec![pair("Model", "CP1350"), list(0, 0, false, 0)];
    let sure = PanelContent::measure(
        &mut SizeCache::new(),
        rows(),
        vec![],
        &t,
        320,
        script(None),
        &mut Counting { asked: 0 },
    );
    let mut cache = SizeCache::new();
    let mut m = Counting { asked: 0 };
    let tried = PanelContent::try_measure(&mut cache, rows(), vec![], &t, 320, script(None), &mut m);
    assert_eq!(tried, Some(sure));

    let asked = m.asked;
    let again = PanelContent::try_measure(&mut cache, rows(), vec![], &t, 320, script(None), &mut m);
    assert_eq!(again, tried);
    assert_eq!(m.asked, asked, "the answer is remembered");
}

#[test]
fn a_panel_beyond_pixel_counts_has_no_size() {
    struct Endless;
    impl TextMetrics for Endless {
        fn model(&self) -> TextModel {
            unreachable!("asked only by proofs")
        }
        fn line_width(&mut self, _text: &str, _bold: bool) -> i32 {
            i32::MAX
        }
        fn option_width(&mut self, _item: &DropdownItem) -> i32 {
            i32::MAX
        }
        fn wrapped_height(&mut self, _text: &str, _width: i32) -> i32 {
            i32::MAX
        }
    }

    let t = theme();
    let rows = || vec![pair("a", "b")];
    let mut cache = SizeCache::new();
    let wide =
        PanelContent::try_measure(&mut cache, rows(), vec![], &t, 320, script(None), &mut Endless);
    assert_eq!(wide, None);

    let wrapped = |n: usize| {
        (0..n)
            .map(|_| Row::Wrapped { text: "x".to_owned(), color: Color::transparent() })
            .collect::<Vec<Row>>()
    };
    let tall = PanelContent::try_measure(
        &mut cache,
        wrapped(2),
        vec![],
        &t,
        320,
        script(None),
        &mut Endless,
    );
    assert_eq!(tall, None);
    assert!(cache.slots.is_empty(), "nothing was remembered");

    let fine = Script { family: None, dpi: Dpi::new(u32::MAX), centipoints: 1125 };
    let huge =
        PanelContent::try_measure(&mut cache, rows(), vec![], &t, 320, fine, &mut ZeroMetrics);
    assert_eq!(huge, None);
    assert!(!Dpi::new(u32::MAX).can_scale_96(320));
    assert!(Dpi::new(960).can_scale_96(320));
    assert!(!t.metrics.can_scale(Dpi::new(u32::MAX)));
    assert!(t.metrics.can_scale(Dpi::new(192)));
}

#[test]
fn earlier_measurements_never_change_an_answer() {
    let t = theme().scaled(Dpi::new(96));
    let mut cache = SizeCache::new();
    let mut m = Counting { asked: 0 };
    for round in 0..40usize {
        let n = (round * 7) % 6;
        let rows = vec![pair("Model", &"x".repeat(n * 9)), list(round % 2, 0, round % 3 == 0, 0)];
        let samples = vec![pair("", &"0".repeat(n % 3))];
        let floor = 100 + 50 * (n as i32 % 2);
        let size = content_size(&mut cache, &rows, &samples, &t, script(None), floor, &mut m);
        assert_eq!(size, measure_content(&rows, &samples, &t, floor, &mut m), "round {round}");
        assert!(cache.slots.len() <= 4);
    }
}
