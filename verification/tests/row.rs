use ups_monitor::color::Color;
use ups_monitor::dpi::Dpi;
use ups_monitor::icon::{IconSet, IconSpec};
use ups_monitor::row::{DropdownItem, Gap, HotspotId, Move, Row, FOCUS_RING_OUTSET};
use ups_monitor::scrollbar::{DROPDOWN_MAX_VISIBLE, DROPDOWN_PAGE};
use ups_monitor::text::{TextMetrics, TextModel};
use ups_monitor::theme::Theme;

fn mark(r: u8, g: u8, b: u8) -> IconSpec {
    IconSpec { fill: Color::from_rgb(r, g, b), stroke: Color::from_rgb(0, 0, 0) }
}

fn icons() -> IconSet {
    IconSet {
        normal: mark(0x34, 0xC7, 0x59),
        on_battery: mark(0xFF, 0x9F, 0x0A),
        critical: mark(0xFF, 0x3B, 0x30),
        disconnected: mark(0x8E, 0x8E, 0x93),
        app: mark(0x0A, 0x84, 0xFF),
    }
}

/// Measures every character as seven pixels and every line as one row of the unscaled theme.
struct StubMetrics {
    char_width: i32,
    line_height: i32,
}

impl Default for StubMetrics {
    fn default() -> StubMetrics {
        StubMetrics { char_width: 7, line_height: 21 }
    }
}

impl TextMetrics for StubMetrics {
    fn model(&self) -> TextModel {
        unreachable!("asked only by proofs")
    }

    fn line_width(&mut self, text: &str, _bold: bool) -> i32 {
        text.chars().count() as i32 * self.char_width
    }

    fn option_width(&mut self, item: &DropdownItem) -> i32 {
        let native = item.native.chars().count() as i32;
        let shown = item.label.chars().count() as i32 + if native > 0 { native + 3 } else { 0 };
        shown * self.char_width
    }

    fn wrapped_height(&mut self, text: &str, width: i32) -> i32 {
        let per_line = (width / self.char_width).max(1);
        let cells = text.chars().count() as i32;
        ((cells + per_line - 1) / per_line).max(1) * self.line_height
    }
}

#[test]
fn every_list_move_lands_where_its_key_promises() {
    let n = DROPDOWN_MAX_VISIBLE * 2;
    assert_eq!(Move::Previous.apply(5, n), 4);
    assert_eq!(Move::Next.apply(5, n), 6);
    assert_eq!(Move::First.apply(5, n), 0);
    assert_eq!(Move::Last.apply(5, n), n - 1);
    assert_eq!(Move::PageForward.apply(0, n), DROPDOWN_PAGE);
    assert_eq!(Move::PageBack.apply(DROPDOWN_PAGE, n), 0);
}

#[test]
fn a_list_move_saturates_at_both_ends() {
    let n = DROPDOWN_MAX_VISIBLE + 2;
    let last = n - 1;
    assert_eq!(Move::Previous.apply(0, n), 0);
    assert_eq!(Move::PageBack.apply(1, n), 0);
    assert_eq!(Move::Next.apply(last, n), last);
    assert_eq!(Move::PageForward.apply(last, n), last);
    assert_eq!(
        Move::PageForward.apply(Move::PageForward.apply(0, n), n),
        last,
        "a list barely longer than a page is fully crossed by two pages"
    );
}

#[test]
fn a_list_move_survives_a_list_with_nothing_to_move_in() {
    for mv in [
        Move::Previous,
        Move::Next,
        Move::PageBack,
        Move::PageForward,
        Move::First,
        Move::Last,
    ] {
        assert_eq!(mv.apply(0, 1), 0);
        assert_eq!(mv.apply(0, 0), 0);
    }
}

#[test]
fn a_gap_scales_with_the_theme_it_is_measured_against() {
    let unscaled = Theme::default_theme(icons());
    let base = unscaled.scaled(Dpi::new(96));
    let doubled = unscaled.scaled(Dpi::new(192));

    for gap in [Gap::Half, Gap::Single] {
        let row = Row::Space(gap);
        let small = row.height(&base, 400, false, &mut StubMetrics::default());
        let large = row.height(&doubled, 400, false, &mut StubMetrics::default());
        assert!(small > 0, "a gap must occupy space");
        assert_eq!(
            large,
            small * 2,
            "at 200 % dpi the gap must double, like the rows around it"
        );
    }

    assert!(Gap::Half.px(&base) < Gap::Single.px(&base));
    assert!(Gap::Half.px(&doubled) < Gap::Single.px(&doubled));
}

#[test]
fn wrapped_is_measured_and_notice_is_one_line() {
    let t = Theme::default_theme(icons()).scaled(Dpi::new(96));
    let line = t.metrics().row_height;
    let width = t.metrics().settings_width;
    let mut metrics = StubMetrics::default();
    let text = "Check the UPS is connected over USB and seen as a HID device by Windows.";

    let wrapped = Row::Wrapped {
        text: text.into(),
        color: t.colors().text_primary,
    };
    assert_eq!(
        wrapped.height(&t, width, false, &mut metrics),
        metrics.wrapped_height(text, width),
        "a wrapped row reserves exactly what measuring its text returns"
    );
    assert!(
        wrapped.height(&t, width / 3, false, &mut metrics)
            > wrapped.height(&t, width, false, &mut metrics),
        "a narrower column must wrap into more lines"
    );

    let notice = Row::Notice {
        text: "Interval must be between 1000 and 60000 ms".into(),
        color: t.colors().critical,
    };
    assert_eq!(
        notice.height(&t, width, false, &mut metrics),
        line,
        "a notice is always exactly one line, whatever the window width"
    );
    assert_eq!(
        notice.height(&t, width / 4, false, &mut metrics),
        line,
        "and it does not grow when the window is narrow"
    );
}

#[test]
fn identical_rows_compare_equal() {
    let a = vec![
        Row::Header("Battery".into()),
        Row::Pair {
            label: "Charge".into(),
            value: "100 %".into(),
            color: Color::from_rgb(1, 2, 3),
        },
    ];
    let b = vec![
        Row::Header("Battery".into()),
        Row::Pair {
            label: "Charge".into(),
            value: "100 %".into(),
            color: Color::from_rgb(1, 2, 3),
        },
    ];
    assert!(a == b, "identical content must compare equal");

    let c = vec![
        Row::Header("Battery".into()),
        Row::Pair {
            label: "Charge".into(),
            value: "99 %".into(),
            color: Color::from_rgb(1, 2, 3),
        },
    ];
    assert!(a != c, "a changed reading must compare unequal");
}

#[test]
fn every_row_asks_for_the_height_its_kind_is_worth() {
    let t = Theme::default_theme(icons()).scaled(Dpi::new(96));
    let line = t.metrics().row_height;
    let spacing = t.metrics().spacing;
    let mut m = StubMetrics::default();

    let expected = [
        (Row::Space(Gap::Half), spacing / 2),
        (Row::Space(Gap::Single), spacing),
        (Row::Header("h".into()), line + spacing / 2),
        (
            Row::Pair {
                label: "a".into(),
                value: "b".into(),
                color: Color::transparent(),
            },
            line,
        ),
        (
            Row::LabeledButton {
                label: "a".into(),
                value: "b".into(),
                button: "c".into(),
                color: Color::transparent(),
                id: HotspotId::new(1),
                enabled: true,
            },
            line,
        ),
        (
            Row::TitleButton {
                title: "a".into(),
                button: "b".into(),
                id: HotspotId::new(2),
            },
            line + spacing,
        ),
        (
            Row::Checkbox {
                label: "a".into(),
                checked: false,
                depth: 0,
                id: HotspotId::new(3),
            },
            line + spacing / 2,
        ),
        (
            Row::Dropdown {
                label: "a".into(),
                options: Vec::new(),
                selected: 0,
                highlighted: 0,
                open: false,
                scroll: 0,
                id: HotspotId::new(4),
            },
            line + spacing / 2 + FOCUS_RING_OUTSET,
        ),
        (
            Row::Field {
                label: "a".into(),
                value: "b".into(),
                caret: 0,
                sel_start: 0,
                sel_end: 0,
                id: HotspotId::new(5),
            },
            line + spacing / 2 + FOCUS_RING_OUTSET,
        ),
        (
            Row::Buttons {
                left: "OK".into(),
                left_id: HotspotId::new(6),
                right: "Cancel".into(),
                right_id: HotspotId::new(7),
            },
            line + spacing,
        ),
    ];

    for (row, want) in &expected {
        assert_eq!(row.body_height(&t, 400, &mut m), *want);
    }

    let open = Row::Dropdown {
        label: "a".into(),
        options: vec![DropdownItem {
            label: "o".into(),
            native: String::new(),
            font: None,
        }],
        selected: 0,
        highlighted: 0,
        open: true,
        scroll: 0,
        id: HotspotId::new(4),
    };
    assert_eq!(
        open.body_height(&t, 400, &mut m),
        line + spacing / 2 + FOCUS_RING_OUTSET
    );
}

#[test]
fn only_a_repeated_header_and_the_button_row_lead_in() {
    let t = Theme::default_theme(icons()).scaled(Dpi::new(96));
    let header = Row::Header("h".into());
    let buttons = Row::Buttons {
        left: "OK".into(),
        left_id: HotspotId::new(1),
        right: "Cancel".into(),
        right_id: HotspotId::new(2),
    };
    let pair = Row::Pair {
        label: "a".into(),
        value: "b".into(),
        color: Color::transparent(),
    };

    assert_eq!(header.lead_in(&t, false), 0);
    assert_eq!(header.lead_in(&t, true), t.metrics().spacing / 2);
    assert_eq!(buttons.lead_in(&t, false), t.metrics().button_row_lead());
    assert_eq!(buttons.lead_in(&t, true), t.metrics().button_row_lead());
    assert_eq!(pair.lead_in(&t, false), 0);
    assert_eq!(pair.lead_in(&t, true), 0);
}

#[test]
fn is_button_names_exactly_the_buttons() {
    let buttons = [
        Row::LabeledButton {
            label: "a".into(),
            value: "b".into(),
            color: Color::transparent(),
            button: "c".into(),
            id: HotspotId::new(1),
            enabled: true,
        },
        Row::TitleButton {
            title: "a".into(),
            button: "b".into(),
            id: HotspotId::new(2),
        },
        Row::Buttons {
            left: "OK".into(),
            left_id: HotspotId::new(3),
            right: "Cancel".into(),
            right_id: HotspotId::new(4),
        },
    ];
    for row in &buttons {
        assert!(row.is_button(), "this variant should be a button");
    }

    let not_buttons = [
        Row::Header("h".into()),
        Row::Pair {
            label: "a".into(),
            value: "b".into(),
            color: Color::transparent(),
        },
        Row::Wrapped {
            text: "t".into(),
            color: Color::transparent(),
        },
        Row::Checkbox {
            label: "a".into(),
            checked: false,
            depth: 0,
            id: HotspotId::new(5),
        },
        Row::Field {
            label: "a".into(),
            value: "b".into(),
            caret: 0,
            sel_start: 0,
            sel_end: 0,
            id: HotspotId::new(6),
        },
        Row::Space(Gap::Half),
    ];
    for row in &not_buttons {
        assert!(!row.is_button(), "this variant should not be a button");
    }
}
