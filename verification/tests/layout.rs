use ups_monitor::color::Color;
use ups_monitor::dpi::Dpi;
use ups_monitor::fingerprint::text_fingerprint;
use ups_monitor::icon::{IconSet, IconSpec};
use ups_monitor::layout::{
    action_button_width, button_width_for, column_needs, column_origin, content_geometry,
    dialog_button_width, measure_with,
};
use ups_monitor::row::{
    DropdownItem, Gap, HotspotId, Row, HOT_BEEPER, HOT_SELFTEST, HOT_SETTINGS,
};
use ups_monitor::scrollbar::{scrollbar_width, DROPDOWN_MAX_VISIBLE};
use ups_monitor::text::{TextMetrics, TextModel};
use ups_monitor::theme::{ScaledTheme, Theme};

fn mark(r: u8, g: u8, b: u8) -> IconSpec {
    IconSpec { fill: Color::from_rgb(r, g, b), stroke: Color::from_rgb(0, 0, 0) }
}

fn icons() -> IconSet {
    IconSet {
        normal: mark(0x34, 0xC7, 0x59),
        on_battery: mark(0xFF, 0x9F, 0x0A),
        critical: mark(0xFF, 0x3B, 0x30),
        disconnected: mark(0x8E, 0x8E, 0x93),
        app: mark(0x0A, 0x84, 0xFF),
    }
}

/// Measures every character as seven pixels, or a wide one as fourteen where
/// asked, and every line as one row of the unscaled theme.
struct StubMetrics {
    char_width: i32,
    line_height: i32,
    wide: bool,
}

impl Default for StubMetrics {
    fn default() -> StubMetrics {
        StubMetrics { char_width: 7, line_height: 21, wide: false }
    }
}

impl StubMetrics {
    fn wide_aware() -> StubMetrics {
        StubMetrics { wide: true, ..StubMetrics::default() }
    }

    fn cells(&self, text: &str) -> i32 {
        text.chars().map(|ch| if self.wide && ch as u32 >= 0x2E80 { 2 } else { 1 }).sum()
    }
}

impl TextMetrics for StubMetrics {
    fn model(&self) -> TextModel {
        unreachable!("asked only by proofs")
    }

    fn line_width(&mut self, text: &str, _bold: bool) -> i32 {
        self.cells(text) * self.char_width
    }

    fn option_width(&mut self, item: &DropdownItem) -> i32 {
        let native = self.cells(&item.native);
        let shown = self.cells(&item.label) + if native > 0 { native + 3 } else { 0 };
        shown * self.char_width
    }

    fn wrapped_height(&mut self, text: &str, width: i32) -> i32 {
        let per_line = (width / self.char_width).max(1);
        let cells = self.cells(text);
        ((cells + per_line - 1) / per_line).max(1) * self.line_height
    }
}

fn content_geometry_width(
    rows: &[Row],
    theme: &ScaledTheme,
    metrics: &mut StubMetrics,
) -> i32 {
    content_geometry(rows, &[], theme, metrics).0
}

#[test]
fn button_widths_are_fitted_and_floored() {
    let t = Theme::default_theme(icons()).scaled(Dpi::new(96));
    let spacing = t.metrics().spacing;
    let btn_min = t.metrics().button_min_width;
    let mut measure = StubMetrics::default();

    let short = button_width_for("OK", btn_min, spacing, &mut measure);
    assert_eq!(short, btn_min, "a short caption gets the theme minimum");

    let long = "A caption far longer than any minimum width";
    let wide = button_width_for(long, btn_min, spacing, &mut measure);
    assert!(
        wide > btn_min && wide >= measure.line_width(long, false) + spacing * 4,
        "a long caption must widen its button, not be clipped by it"
    );

    let floor = dialog_button_width("OK", "Cancel", btn_min, spacing, &mut measure);
    assert_eq!(
        floor,
        btn_min + spacing * 2,
        "dialog buttons keep the wider floor they have always been drawn at"
    );
    assert_eq!(
        dialog_button_width("Cancel", "OK", btn_min, spacing, &mut measure),
        floor,
        "the pair must not depend on which caption is on which side"
    );
    let grown = dialog_button_width("OK", long, btn_min, spacing, &mut measure);
    assert!(
        grown > floor,
        "one long caption widens both buttons, or the pair is asymmetric"
    );
}

#[test]
fn a_scrolling_list_is_measured_wide_enough_for_its_bar() {
    let t = Theme::default_theme(icons()).scaled(Dpi::new(96));
    let mut m = StubMetrics::default();

    let option = |n: usize| DropdownItem {
        label: format!("Language {n}"),
        native: String::new(),
        font: None,
    };
    let row = |count: usize| {
        vec![Row::Dropdown {
            label: "Language".into(),
            options: (0..count).map(option).collect(),
            selected: 0,
            highlighted: 0,
            open: false,
            scroll: 0,
            id: HotspotId::new(1_000),
        }]
    };

    let fits = content_geometry_width(&row(DROPDOWN_MAX_VISIBLE), &t, &mut m);
    let scrolls = content_geometry_width(&row(DROPDOWN_MAX_VISIBLE + 1), &t, &mut m);
    let bar = scrollbar_width(t.metrics().row_height);

    assert_eq!(
        scrolls - fits,
        bar * 2,
        "the scrolling list must gain exactly the bar; both halves are \
         sized to the larger, so a column term costs twice"
    );
    assert!(bar >= 12, "a {bar}px bar is too narrow to click");
}

#[test]
fn wrapped_text_is_measured_against_the_available_width() {
    let t = Theme::default_theme(icons()).scaled(Dpi::new(96));
    let short = measure_with(
        &[Row::Wrapped {
            text: "Short".into(),
            color: Color::transparent(),
        }],
        &t,
        350,
        &mut StubMetrics::default(),
    );
    let long = measure_with(
        &[Row::Wrapped {
            text: "Several matching HID devices were found. The first \
                   one is in use, and its readings may belong to a \
                   different power source."
                .into(),
            color: Color::transparent(),
        }],
        &t,
        350,
        &mut StubMetrics::default(),
    );
    assert!(
        long > short,
        "a message needing three lines must not be measured as two"
    );

    let narrow = measure_with(
        &[Row::Wrapped {
            text: "Several matching HID devices were found. The first \
                   one is in use, and its readings may belong to a \
                   different power source."
                .into(),
            color: Color::transparent(),
        }],
        &t,
        250,
        &mut StubMetrics::default(),
    );
    assert!(narrow >= long, "narrower means more lines, not fewer");
}

#[test]
fn short_wrapped_text_reserves_exactly_one_line() {
    let t = Theme::default_theme(icons()).scaled(Dpi::new(96));
    let mut metrics = StubMetrics::default();
    let h = measure_with(
        &[Row::Wrapped {
            text: "OK".into(),
            color: Color::transparent(),
        }],
        &t,
        350,
        &mut metrics,
    );
    assert_eq!(
        h - (t.metrics().padding * 2 + t.metrics().bottom_slack()),
        metrics.line_height,
        "a message that fits on one line must occupy one line"
    );
}

#[test]
fn a_row_with_an_inline_button_is_no_taller_than_a_plain_row() {
    let t = Theme::default_theme(icons()).scaled(Dpi::new(96));
    let plain = measure_with(
        &[Row::Pair {
            label: "Buzzer".into(),
            value: "Enabled".into(),
            color: Color::transparent(),
        }],
        &t,
        350,
        &mut StubMetrics::default(),
    );
    let with_button = measure_with(
        &[Row::LabeledButton {
            label: "Buzzer".into(),
            value: "Enabled".into(),
            color: Color::transparent(),
            button: "Disable".into(),
            id: HotspotId::new(HOT_BEEPER),
            enabled: true,
        }],
        &t,
        350,
        &mut StubMetrics::default(),
    );
    assert_eq!(
        plain, with_button,
        "the buzzer row must sit on the same rhythm as every other metric"
    );
}

#[test]
fn headers_are_spaced_symmetrically_but_not_the_first() {
    let t = Theme::default_theme(icons()).scaled(Dpi::new(96));
    let one = measure_with(
        &[Row::Header("Input".into())],
        &t,
        350,
        &mut StubMetrics::default(),
    );
    let two = measure_with(
        &[Row::Header("Input".into()), Row::Header("Output".into())],
        &t,
        350,
        &mut StubMetrics::default(),
    );
    let line = t.metrics().row_height;
    let spacing = t.metrics().spacing;

    assert_eq!(
        two - one,
        line + spacing / 2 + spacing / 2,
        "a following heading must be charged for the space above it"
    );
    assert_eq!(
        one,
        t.metrics().padding * 2 + t.metrics().bottom_slack() + line + spacing / 2,
        "the first heading has nothing above it to be separated from"
    );
}

#[test]
fn bottom_padding_matches_the_visual_top_gap() {
    let t = Theme::default_theme(icons()).scaled(Dpi::new(96));
    let pad = t.metrics().padding;
    let spacing = t.metrics().spacing;
    let line = t.metrics().row_height;

    let rows = vec![
        Row::TitleButton {
            title: "UPS Monitor".into(),
            button: "Settings".into(),
            id: HotspotId::new(HOT_SETTINGS),
        },
        Row::Pair {
            label: "Buzzer".into(),
            value: "Enabled".into(),
            color: Color::transparent(),
        },
    ];
    let h = measure_with(&rows, &t, 350, &mut StubMetrics::default());

    let visual_top = pad + spacing / 2;
    let consumed = (line + spacing) + line;
    let visual_bottom = h - pad - consumed;

    assert_eq!(
        visual_top, visual_bottom,
        "the gap under the last row must equal the gap over the title"
    );
}

#[test]
fn button_row_is_vertically_centered() {
    let t = Theme::default_theme(icons()).scaled(Dpi::new(96));
    let pad = t.metrics().padding;
    let spacing = t.metrics().spacing;
    let line = t.metrics().row_height;
    let width = t.metrics().settings_width;

    let checkbox = || Row::Checkbox {
        label: "Start minimised".into(),
        checked: false,
        depth: 0,
        id: HotspotId::new(200),
    };
    let button_row = || Row::Buttons {
        left: "OK".into(),
        left_id: HotspotId::new(108),
        right: "Cancel".into(),
        right_id: HotspotId::new(109),
    };

    let normal = vec![checkbox(), button_row()];
    let warned = vec![
        checkbox(),
        Row::Space(Gap::Half),
        Row::Notice {
            text: "Interval must be between 1000 and 60000 ms".into(),
            color: t.colors().critical,
        },
        Row::Space(Gap::Half),
        button_row(),
    ];

    for rows in [normal, warned] {
        let mut header_seen = false;
        let mut y = pad;
        let mut row_start = None;
        for row in &rows {
            if matches!(row, Row::Buttons { .. }) {
                row_start = Some(y);
            }
            y += row.height(&t, width, header_seen, &mut StubMetrics::default());
            if matches!(row, Row::Header(_)) {
                header_seen = true;
            }
        }
        let row_start = row_start.expect("a button row must be present");
        let box_top = row_start + t.metrics().button_row_lead();
        let box_bottom = box_top + line + spacing;
        let height = measure_with(&rows, &t, width, &mut StubMetrics::default());

        let above = box_top - (row_start - spacing / 2);
        let below = height - box_bottom;
        assert_eq!(
            above, below,
            "the gap above the buttons must equal the gap below them"
        );
        assert_eq!(
            below,
            pad + t.metrics().bottom_slack(),
            "the gap below the buttons is the window's bottom margin"
        );
    }
}

#[test]
fn the_size_fingerprint_sees_what_the_height_depends_on() {
    let unscaled = Theme::default_theme(icons());
    let t = unscaled.scaled(Dpi::new(96));

    let wrapped = |text: &str| {
        vec![Row::Wrapped {
            text: text.into(),
            color: t.colors().text_primary,
        }]
    };

    assert_ne!(
        text_fingerprint(&wrapped("Device not found."), &t),
        text_fingerprint(
            &wrapped(
                "Several matching HID devices were found. The first is used, \
                 and the readings may belong to another power source."
            ),
            &t
        ),
        "a wrapped row's text is its height, so it must reach the key"
    );

    assert_ne!(
        text_fingerprint(&[Row::Space(Gap::Half)], &t),
        text_fingerprint(&[Row::Space(Gap::Single)], &t),
        "the two gap steps are different heights"
    );

    let rows = wrapped("Device not found.");
    assert_ne!(
        text_fingerprint(&rows, &t),
        text_fingerprint(&rows, &unscaled.scaled(Dpi::new(144))),
        "the same text at another DPI is another size; the key must say so"
    );

    let mut repainted = unscaled;
    repainted.colors.text_primary = Color::from_rgb(0x12, 0x34, 0x56);
    let recoloured = repainted.scaled(Dpi::new(96));
    assert_eq!(
        text_fingerprint(&rows, &t),
        text_fingerprint(&rows, &recoloured),
        "a colour cannot change a measurement, so it must not evict one"
    );
}

#[test]
fn narrow_labels_yield_a_narrow_window() {
    let t = Theme::default_theme(icons()).scaled(Dpi::new(96));
    let long = vec![
        Row::Pair {
            label: "Umgebungstemperatur".into(),
            value: "220 V".into(),
            color: Color::from_rgb(255, 255, 255),
        },
        Row::Pair {
            label: "Eingangsspannung".into(),
            value: "230 V".into(),
            color: Color::from_rgb(255, 255, 255),
        },
    ];
    let short = vec![
        Row::Pair {
            label: "输入电压".into(),
            value: "220 V".into(),
            color: Color::from_rgb(255, 255, 255),
        },
        Row::Pair {
            label: "额定输入".into(),
            value: "230 V".into(),
            color: Color::from_rgb(255, 255, 255),
        },
    ];
    let mut w = StubMetrics::default();
    let short_w = content_geometry_width(&short, &t, &mut w);
    let long_w = content_geometry_width(&long, &t, &mut w);
    assert!(
        short_w < long_w,
        "shorter labels must give a narrower window ({short_w} vs {long_w})"
    );
}

#[test]
fn a_dropdown_is_as_wide_as_its_longest_option() {
    let t = Theme::default_theme(icons()).scaled(Dpi::new(96));
    let item = |s: &str| DropdownItem {
        label: s.into(),
        native: String::new(),
        font: None,
    };
    let mk = |opts: Vec<DropdownItem>| {
        vec![Row::Dropdown {
            label: "L".into(),
            options: opts,
            selected: 0,
            highlighted: 0,
            open: false,
            scroll: 0,
            id: HotspotId::new(1),
        }]
    };
    let narrow = mk(vec![item("A"), item("B")]);
    let wide = mk(vec![item("A"), item("A considerably longer option")]);
    let mut m = StubMetrics::default();
    assert!(
        content_geometry_width(&wide, &t, &mut m) > content_geometry_width(&narrow, &t, &mut m),
        "the unselected long option must still count"
    );
}

#[test]
fn the_measured_width_leaves_room_for_both_columns() {
    let t = Theme::default_theme(icons()).scaled(Dpi::new(96));
    let rows = vec![Row::Pair {
        label: "Label".into(),
        value: "A rather longer value".into(),
        color: Color::from_rgb(255, 255, 255),
    }];
    let mut m = StubMetrics::default();

    let width = content_geometry_width(&rows, &t, &mut m);

    let needs = column_needs(&rows, &[], &t, &mut m);
    let (origin, half) = column_origin(width, needs.half, &t);

    let values = width - origin - half - origin;
    assert!(
        values >= m.line_width("A rather longer value", false),
        "values need {} px but only {values} remain",
        m.line_width("A rather longer value", false)
    );
    assert!(
        half >= m.line_width("Label", false) + t.metrics().column_gap,
        "the label column never shrinks below what the labels need"
    );
}

#[test]
fn the_buzzer_button_is_charged_against_its_own_value() {
    let t = Theme::default_theme(icons()).scaled(Dpi::new(96));
    let mut m = StubMetrics::default();

    let spacing = t.metrics().spacing;
    let btn_min = t.metrics().button_min_width;

    let rows = vec![
        Row::Pair {
            label: "Rated power".into(),
            value: "1350 VA / 810 W".into(),
            color: Color::from_rgb(255, 255, 255),
        },
        Row::LabeledButton {
            label: "Buzzer".into(),
            value: "Disabled".into(),
            button: "Enable".into(),
            color: Color::from_rgb(255, 255, 255),
            id: HotspotId::new(1),
            enabled: true,
        },
    ];

    let act_btn = action_button_width(&rows, btn_min, spacing, &mut m);
    let needs = column_needs(&rows, &[], &t, &mut m);
    let own = m.line_width("Disabled", false) + spacing + act_btn;
    let stacked = m.line_width("1350 VA / 810 W", false) + spacing + act_btn;

    assert!(
        needs.half <= own.max(m.line_width("Buzzer", false) + t.metrics().column_gap),
        "the column is wider than the buzzer row needs: {}",
        needs.half
    );
    assert!(
        needs.half < stacked,
        "the button must not be stacked on another row's value: {} vs {stacked}",
        needs.half
    );
}

#[test]
fn the_two_action_buttons_share_the_widest_caption() {
    let mut m = StubMetrics::default();
    let spacing = 8;
    let btn_min = 0;

    let rows = vec![
        Row::LabeledButton {
            label: "Buzzer".into(),
            value: "Passed".into(),
            button: "Aç".into(),
            color: Color::from_rgb(255, 255, 255),
            id: HotspotId::new(HOT_BEEPER),
            enabled: true,
        },
        Row::LabeledButton {
            label: "Last test".into(),
            value: "Passed".into(),
            button: "Self-test".into(), 
            color: Color::from_rgb(255, 255, 255),
            id: HotspotId::new(HOT_SELFTEST),
            enabled: true,
        },
    ];

    let shared = action_button_width(&rows, btn_min, spacing, &mut m);
    assert_eq!(shared, m.line_width("Self-test", false) + spacing * 4);
    assert!(
        shared > m.line_width("Aç", false) + spacing * 4,
        "short button is widened to match"
    );
}

#[test]
fn the_action_button_keeps_one_width_across_its_captions() {
    let t = Theme::default_theme(icons()).scaled(Dpi::new(96));
    let mut m = StubMetrics::default();

    let buzzer = |verb: &str| Row::LabeledButton {
        label: "Buzzer".into(),
        value: "Disabled".into(),
        button: verb.into(),
        color: Color::from_rgb(255, 255, 255),
        id: HotspotId::new(HOT_BEEPER),
        enabled: true,
    };
    let self_test = || Row::LabeledButton {
        label: "Last test".into(),
        value: "Passed".into(),
        button: "Test".into(),
        color: Color::from_rgb(255, 255, 255),
        id: HotspotId::new(HOT_SELFTEST),
        enabled: true,
    };
    let (on_verb, off_verb) = ("Enable buzzer", "Disable buzzer");
    let samples = vec![buzzer(on_verb), buzzer(off_verb), self_test()];

    let enabled = vec![buzzer(off_verb), self_test()];
    let disabled = vec![buzzer(on_verb), self_test()];

    let (_, on) = content_geometry(&enabled, &samples, &t, &mut m);
    let (_, off) = content_geometry(&disabled, &samples, &t, &mut m);

    assert_eq!(
        on.action_button, off.action_button,
        "the button resizes when its verb changes"
    );
    let widest = m.line_width(off_verb, false) + t.metrics().spacing * 4;
    assert!(widest > t.metrics().button_min_width);
    assert_eq!(on.action_button, widest);
}

#[test]
fn action_width_without_buttons_is_the_minimum() {
    let rows = vec![Row::Pair {
        label: "Model".into(),
        value: "CP1350".into(),
        color: Color::from_rgb(255, 255, 255),
    }];
    let w = action_button_width(&rows, 96, 8, &mut StubMetrics::default());
    assert_eq!(w, 96);
}

#[test]
fn the_value_column_starts_at_the_centre_line() {
    let t = Theme::default_theme(icons()).scaled(Dpi::new(96));

    let mut m = StubMetrics::wide_aware();
    let rows = |label: &str| {
        vec![Row::Pair {
            label: label.into(),
            value: "1350 VA / 810 W".into(),
            color: Color::from_rgb(255, 255, 255),
        }]
    };
    for label in ["输入电压", "Low-charge threshold", "Eingangsspannung"] {
        let r = rows(label);
        let width = content_geometry_width(&r, &t, &mut m);
        let needs = column_needs(&r, &[], &t, &mut m);
        let (origin, half) = column_origin(width, needs.half, &t);
        let centre = width / 2;
        let value_x = origin + half;
        assert!(
            (value_x - centre).abs() <= 1,
            "{label}: values start at {value_x}, centre is {centre}"
        );
    }
}

#[test]
fn a_wide_single_row_keeps_the_columns_centred() {
    let t = Theme::default_theme(icons()).scaled(Dpi::new(96));

    let pad = t.metrics().padding;
    let half_need = 40;
    let width = pad * 2 + 400;
    let (origin, half) = column_origin(width, half_need, &t);
    assert_eq!(origin + half, width / 2, "values must begin at the centre");
    assert_eq!(origin, width - (origin + half * 2), "margins must be equal");
}

#[test]
fn the_halves_rule_does_not_flatten_the_per_language_width() {
    let t = Theme::default_theme(icons()).scaled(Dpi::new(96));
    let mut m = StubMetrics::wide_aware();
    let pair = |label: &str| {
        vec![Row::Pair {
            label: label.into(),
            value: "1350 VA / 810 W".into(),
            color: Color::from_rgb(255, 255, 255),
        }]
    };
    let short = content_geometry_width(&pair("输入电压"), &t, &mut m);
    let long = content_geometry_width(&pair("Napięcie wejściowe znamionowe"), &t, &mut m);
    assert!(
        short < long,
        "short labels must still give a narrower window ({short} vs {long})"
    );
}

#[test]
fn measure_grows_with_rows() {
    let t = Theme::default_theme(icons()).scaled(Dpi::new(96));
    let empty = measure_with(&[], &t, 460, &mut StubMetrics::default());
    let one = measure_with(
        &[Row::Pair {
            label: "a".into(),
            value: "b".into(),
            color: Color::from_rgb(255, 255, 255),
        }],
        &t,
        460,
        &mut StubMetrics::default(),
    );
    assert!(one > empty, "adding a row must increase height");
}

#[test]
fn measure_counts_wrapped_by_the_lines_it_needs() {
    let t = Theme::default_theme(icons()).scaled(Dpi::new(96));
    let pair = measure_with(
        &[Row::Pair {
            label: "a".into(),
            value: "b".into(),
            color: Color::transparent(),
        }],
        &t,
        460,
        &mut StubMetrics::default(),
    );
    let long = measure_with(
        &[Row::Wrapped {
            text: "A sentence long enough that it cannot possibly fit on \
                   one line of a window this narrow, and so must wrap onto \
                   a second and a third."
                .into(),
            color: Color::transparent(),
        }],
        &t,
        460,
        &mut StubMetrics::default(),
    );
    assert!(
        long > pair,
        "a message that wraps reserves more than one line"
    );

    let short = measure_with(
        &[Row::Wrapped {
            text: "Short".into(),
            color: Color::transparent(),
        }],
        &t,
        460,
        &mut StubMetrics::default(),
    );
    assert_eq!(short, pair, "a message that does not wrap is one line tall");
}

#[test]
fn measure_is_the_sum_of_row_heights() {
    let t = Theme::default_theme(icons()).scaled(Dpi::new(96));
    let rows = [
        Row::Header("Input".into()),
        Row::Pair {
            label: "a".into(),
            value: "b".into(),
            color: Color::transparent(),
        },
        Row::Header("Output".into()),
        Row::Pair {
            label: "c".into(),
            value: "d".into(),
            color: Color::transparent(),
        },
    ];
    let width = 460;

    let pad = t.metrics().padding;
    let mut expected = pad * 2 + t.metrics().bottom_slack();
    let mut seen = false;
    for row in &rows {
        expected += row.height(&t, width, seen, &mut StubMetrics::default());
        if matches!(row, Row::Header(_)) {
            seen = true;
        }
    }

    assert_eq!(
        measure_with(&rows, &t, width, &mut StubMetrics::default()),
        expected
    );
}

fn pair(label: &str, value: &str) -> Row {
    Row::Pair {
        label: label.into(),
        value: value.into(),
        color: Color::transparent(),
    }
}

fn language_list(long: &str, count: usize) -> Row {
    let mut options = vec![DropdownItem {
        label: long.into(),
        native: "native name".into(),
        font: None,
    }];
    options.extend((1..count).map(|i| DropdownItem {
        label: format!("o{i}"),
        native: String::new(),
        font: None,
    }));
    Row::Dropdown {
        label: "L".into(),
        options,
        selected: 0,
        highlighted: 0,
        open: false,
        scroll: 0,
        id: HotspotId::new(1),
    }
}

#[test]
fn the_label_column_takes_the_longest_label() {
    let t = Theme::default_theme(icons()).scaled(Dpi::new(96));
    let mut m = StubMetrics::default();
    let rows = vec![
        pair("short", "v"),
        pair("the longest label here", "v"),
        pair("mid label", "v"),
    ];

    let needs = column_needs(&rows, &[], &t, &mut m);

    assert_eq!(needs.half, 22 * 7 + t.metrics().column_gap);
    assert_eq!(needs.wide_single, 0, "no full-width row is present");
}

#[test]
fn the_value_column_takes_the_widest_value() {
    let t = Theme::default_theme(icons()).scaled(Dpi::new(96));
    let mut m = StubMetrics::default();
    let rows = vec![
        pair("L", "narrow"),
        pair("L", "a decidedly wider value"),
        pair("L", "middling"),
    ];

    let needs = column_needs(&rows, &[], &t, &mut m);

    assert_eq!(needs.half, 23 * 7);
}

#[test]
fn a_dropdown_is_charged_for_the_whole_option() {
    let t = Theme::default_theme(icons()).scaled(Dpi::new(96));
    let mut m = StubMetrics::default();
    let spacing = t.metrics().spacing;
    let line = t.metrics().row_height;
    let rows = vec![language_list("English", 3)];

    let needs = column_needs(&rows, &[], &t, &mut m);

    let option = (7 + 3 + 11) * 7;
    assert_eq!(needs.half, option + spacing * 2 + line);
}

#[test]
fn only_a_scrolling_list_is_charged_for_its_scrollbar() {
    let t = Theme::default_theme(icons()).scaled(Dpi::new(96));
    let mut m = StubMetrics::default();
    let line = t.metrics().row_height;

    let fits = column_needs(
        &[language_list("English", DROPDOWN_MAX_VISIBLE)],
        &[],
        &t,
        &mut m,
    );
    let scrolls = column_needs(
        &[language_list("English", DROPDOWN_MAX_VISIBLE + 1)],
        &[],
        &t,
        &mut m,
    );

    assert_eq!(scrolls.half - fits.half, scrollbar_width(line));
}

#[test]
fn rows_and_samples_weigh_the_same() {
    let t = Theme::default_theme(icons()).scaled(Dpi::new(96));
    let mut m = StubMetrics::default();
    let rows = || vec![pair("Model", "CP1350EPFCLCD"), Row::Header("Device".into())];
    let samples = || vec![language_list("English", 13), pair("A longer label than any", "v")];
    let both = || rows().into_iter().chain(samples()).collect::<Vec<Row>>();

    let drawn = content_geometry(&rows(), &samples(), &t, &mut m);
    assert_eq!(content_geometry(&samples(), &rows(), &t, &mut m), drawn);
    assert_eq!(content_geometry(&both(), &[], &t, &mut m), drawn);
    let (width, columns) = drawn;
    assert_eq!(
        width,
        t.metrics().padding * 2 + (columns.half * 2).max(columns.wide_single)
    );
}

#[test]
fn one_more_row_never_narrows() {
    let t = Theme::default_theme(icons()).scaled(Dpi::new(96));
    let mut m = StubMetrics::default();
    let all = [
        pair("a", "b"),
        Row::Header("A heading of some length".into()),
        language_list("English", 13),
        pair("A longer label than any", "v"),
    ];
    let mut last = (0, 0, 0, 0);
    for n in 0..=all.len() {
        let (width, c) = content_geometry(&all[..n], &[], &t, &mut m);
        let now = (width, c.half, c.wide_single, c.action_button);
        assert!(now.0 >= last.0 && now.1 >= last.1 && now.2 >= last.2 && now.3 >= last.3);
        last = now;
    }
}
