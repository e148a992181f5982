use ups_monitor::color::{shift_channel, Color};
use ups_monitor::dpi::{Dpi, DEFAULT_FONT_CENTIPOINTS};
use ups_monitor::format::format_runtime;
use ups_monitor::lang::Locale;
use ups_monitor::rect::Rect;
use ups_monitor::row::{HotspotId, Move};
use ups_monitor::strings::Key;
use ups_monitor::strs::{decimal_text, is_white_space, parse_u32, same_text, spaced, trim};
use ups_monitor::text::font_height;
use ups_monitor::textfield::{CharFilter, FieldEdit, TextField};
use ups_monitor::tray::icon_size;

#[test]
fn the_baseline_scale_changes_nothing() {
    for v in [0, 1, 21, 320, 10_000] {
        assert_eq!(Dpi::baseline().scale_96(v), v);
    }
    assert_eq!(Dpi::baseline().raw(), 96);
}

#[test]
fn scaling_rounds_half_up() {
    assert_eq!(Dpi::new(144).scale_96(21), 32);
    assert_eq!(Dpi::new(120).scale_96(21), 26);
    assert_eq!(Dpi::new(120).scale_96(1), 1);
    assert_eq!(Dpi::new(192).scale_96(-3), -5);
}

#[test]
fn a_font_height_is_the_negative_of_its_pixels() {
    assert_eq!(Dpi::new(96).points_to_pixels(DEFAULT_FONT_CENTIPOINTS), 15);
    assert_eq!(Dpi::new(144).points_to_pixels(DEFAULT_FONT_CENTIPOINTS), 23);
    assert_eq!(font_height(DEFAULT_FONT_CENTIPOINTS, Dpi::new(96)), -15);
    assert_eq!(font_height(900, Dpi::new(96)), -12);
}

#[test]
fn integer_points_agree_with_the_rounded_quotient() {
    for dpi in [96u32, 120, 144, 168, 192, 288] {
        for centipoints in [700u32, 800, 900, 1000, 1125, 1200, 1800] {
            let exact = (f64::from(centipoints) / 100.0 * f64::from(dpi) / 72.0).round() as i32;
            assert_eq!(Dpi::new(dpi).points_to_pixels(centipoints), exact);
        }
    }
}

#[test]
fn touching_rectangles_never_both_hold_a_point() {
    let left = Rect::new(0, 0, 10, 10);
    let right = Rect::new(10, 0, 20, 10);
    for x in -2..22 {
        for y in -2..12 {
            assert!(!(left.contains(x, y) && right.contains(x, y)));
        }
    }
}

#[test]
fn a_colour_is_handed_over_blue_first() {
    assert_eq!(Color::from_rgb(0x12, 0x34, 0x56).to_colorref(), 0x0056_3412);
    assert_eq!(Color::transparent().to_colorref(), 0);
}

#[test]
fn a_shift_clamps_at_both_ends_and_keeps_alpha() {
    assert_eq!(shift_channel(250, 10), 255);
    assert_eq!(shift_channel(5, -10), 0);
    assert_eq!(shift_channel(100, i16::MAX), 255);
    assert_eq!(shift_channel(100, i16::MIN), 0);
    let c = Color { r: 1, g: 128, b: 254, a: 7 };
    assert_eq!(c.shifted(4), Color { r: 5, g: 132, b: 255, a: 7 });
    assert_eq!(c.shifted(0), c);
}

#[test]
fn opacity_decides_what_shows() {
    let ground = Color::from_rgb(0, 100, 200);
    let ink = Color { r: 255, g: 0, b: 0, a: 255 };
    assert_eq!(ink.over(ground), ink);
    assert_eq!(Color { a: 0, ..ink }.over(ground), ground);
    let half = Color { a: 128, ..ink }.over(ground);
    assert_eq!((half.r, half.a), (128, 255));
    assert!(half.g < 100 && half.b < 200);
}

#[test]
fn numbers_spell_and_read_back() {
    for (n, text) in [(0u32, "0"), (9, "9"), (10, "10"), (4_294_967_295, "4294967295")] {
        assert_eq!(decimal_text(n), text);
        assert_eq!(parse_u32(text), Some(n));
    }
    for n in (0..4_000_000_000u32).step_by(7_919_123) {
        assert_eq!(decimal_text(n), n.to_string());
        assert_eq!(parse_u32(&n.to_string()), Some(n));
    }
}

#[test]
fn only_a_number_that_fits_is_read() {
    for bad in ["", "+", "-", "-1", "1 ", " 1", "1.5", "abc", "4294967296", "99999999999", "１"] {
        assert_eq!(parse_u32(bad), None, "{bad:?}");
        assert_eq!(bad.parse::<u32>().ok(), None, "{bad:?}");
    }
    for good in ["+7", "007", "000000000000001"] {
        assert_eq!(parse_u32(good), good.parse::<u32>().ok(), "{good:?}");
    }
}

#[test]
fn white_space_is_the_unicode_property() {
    for code in 0..=0x10_FFFFu32 {
        if let Some(ch) = char::from_u32(code) {
            assert_eq!(is_white_space(ch), ch.is_whitespace(), "U+{code:04X}");
        }
    }
}

#[test]
fn trimming_takes_both_ends_and_nothing_between() {
    for text in ["", "  ", "a", " a ", "\t a b \u{3000}", "a\u{00A0}", "\u{200B}a"] {
        assert_eq!(trim(text), text.trim(), "{text:?}");
    }
}

#[test]
fn spaced_text_has_one_space() {
    assert_eq!(spaced("220", "V"), "220 V");
    assert_eq!(spaced("", ""), " ");
    assert!(same_text("负载", "负载"));
    assert!(!same_text("a", "b"));
    assert!(!same_text("a", "ab"));
}

#[test]
fn a_runtime_is_never_overstated() {
    for seconds in [0u32, 1, 59, 60, 61, 3599, 3600, u32::MAX] {
        assert_eq!(format_runtime(seconds, "мин"), format!("{} мин", seconds / 60));
    }
}

#[test]
fn a_text_is_found_under_its_key_or_is_empty() {
    let l = Locale {
        texts: vec![
            (Key::UnitVolt, "V".to_owned()),
            (Key::SettingsInvalidInterval, "from {} to {}".to_owned()),
            (Key::UnitVolt, "volt".to_owned()),
            (Key::UnitWatt, "{".to_owned()),
            (Key::UnitPercent, "{}".to_owned()),
        ],
    };
    assert_eq!(l.t(Key::UnitVolt), "V");
    assert_eq!(l.own(Key::UnitVolt), "V");
    assert_eq!(l.t(Key::PanelTitle), "");
    assert_eq!(l.t1(Key::SettingsInvalidInterval, "1000"), "from 1000 to {}");
    assert_eq!(l.t1(Key::UnitVolt, "1000"), "V");
    assert_eq!(l.t1(Key::UnitWatt, "1000"), "{");
    assert_eq!(l.t1(Key::UnitPercent, ""), "");
    assert_eq!(l.t1(Key::PanelTitle, "x"), "");
}

#[test]
fn option_ids_name_their_control_and_place() {
    let control = HotspotId::new(107);
    assert_eq!(control.option(0), HotspotId::new(10_000 + 107 * 100));
    assert_eq!(control.option(23).split_option(), Some((control, 23)));
    assert_ne!(control.option(1), HotspotId::new(106).option(1));
    assert_eq!(HotspotId::nothing(), HotspotId::new(9_999));
}

#[test]
fn a_move_stays_in_the_list() {
    for count in [0usize, 1, 2, 11, 12, 13, 40] {
        for at in 0..count.max(1) {
            for mv in [
                Move::Previous,
                Move::Next,
                Move::PageBack,
                Move::PageForward,
                Move::First,
                Move::Last,
            ] {
                assert!(mv.apply(at, count) < count.max(1), "{mv:?} from {at} of {count}");
            }
        }
    }
    assert_eq!(Move::Next.apply(usize::MAX, usize::MAX), usize::MAX - 1);
}

#[test]
fn backspace_takes_back_what_was_typed() {
    let mut f = TextField::new("30", CharFilter::Digits, 6);
    f.apply(FieldEdit::Left { extend: false });
    assert!(f.apply(FieldEdit::Insert('7')));
    assert_eq!(f.text(), "370");
    assert!(f.apply(FieldEdit::Backspace));
    assert_eq!((f.text(), f.cursor(), f.len()), ("30", 1, 2));
    assert!(!f.is_empty());
}

#[test]
fn a_full_field_takes_a_digit_over_its_selection() {
    let mut f = TextField::new("123456", CharFilter::Digits, 6);
    f.apply(FieldEdit::Left { extend: true });
    assert!(f.apply(FieldEdit::Insert('9')));
    assert_eq!(f.text(), "123459");
    assert!(!f.apply(FieldEdit::Insert('9')));
}

#[test]
fn a_rejected_character_leaves_the_selection_alone() {
    let mut f = TextField::new("3000", CharFilter::Digits, 6);
    f.apply(FieldEdit::SelectAll);
    assert!(!f.apply(FieldEdit::Insert('x')));
    assert_eq!(f.selection(), Some((0, 4)));
    assert_eq!(f.text(), "3000");
}

#[test]
fn an_icon_is_drawn_between_the_two_sizes() {
    for (px, size) in [(i32::MIN, 16), (-1, 16), (0, 16), (1, 16), (16, 16), (20, 20), (64, 64)] {
        assert_eq!(icon_size(px), size, "{px}");
    }
    assert_eq!(icon_size(65), 64);
    assert_eq!(icon_size(i32::MAX), 64);
}
