use ups_monitor::text::{caret_offsets_from_widths, script_runs};

#[test]
fn a_caret_offset_is_taken_at_the_last_unit_of_its_char() {
    let widths = [10, 10, 30, 40];
    assert_eq!(caret_offsets_from_widths("a😀b", &widths), vec![10, 30, 40]);
}

#[test]
fn a_caret_past_the_measured_units_falls_back() {
    assert_eq!(caret_offsets_from_widths("abc", &[7, 14]), vec![7, 14, 0]);
    assert_eq!(caret_offsets_from_widths("😀", &[5]), vec![0]);
    assert!(caret_offsets_from_widths("", &[1, 2]).is_empty());
}

#[test]
fn latin_text_stays_in_one_run() {
    for text in ["220 V", "CP1350EPFCLCD", "1350 VA / 810 W", "207-253 V"] {
        let runs = script_runs(text);
        assert_eq!(runs.len(), 1, "{text:?} should not be split");
        assert!(!runs[0].1, "{text:?} must not ask for the script font");
    }
}

#[test]
fn cyrillic_and_greek_stay_in_the_interface_font() {
    for text in ["Напряжение входа", "Ελληνικά", "Čeština"] {
        let runs = script_runs(text);
        assert_eq!(runs.len(), 1, "{text:?} should not be split");
        assert!(!runs[0].1, "{text:?} must not ask for the script font");
    }
}

#[test]
fn mixed_text_splits_at_the_script_boundary() {
    let runs = script_runs("负载 (W)");
    assert!(runs.len() >= 2, "mixed text must split");
    assert!(runs[0].1, "the CJK head takes the script font");
    assert!(
        runs.iter().any(|(r, foreign)| !foreign && r.contains('W')),
        "the Latin tail stays in the interface font"
    );
    let joined: String = runs.iter().map(|(r, _)| r.as_str()).collect();
    assert_eq!(joined, "负载 (W)");
}

#[test]
fn runs_reassemble_to_the_original() {
    for text in [
        "",
        "AVR 启用",
        "已充满",
        "1350 VA / 810 W",
        "UPS 故障",
        "日本語 66 分",
    ] {
        let joined: String = script_runs(text).iter().map(|(r, _)| r.as_str()).collect();
        assert_eq!(joined, text, "runs must reassemble to {text:?}");
    }
}
