use ups_monitor::textfield::{CharFilter, FieldEdit, TextField};

fn digits(text: &str) -> TextField {
    TextField::new(text, CharFilter::Digits, 6)
}

#[test]
fn new_places_caret_at_end_with_no_selection() {
    let f = digits("3000");
    assert_eq!(f.cursor(), 4);
    assert_eq!(f.selection(), None);
}

#[test]
fn digits_filter_rejects_non_digits() {
    let mut f = digits("");
    assert!(f.apply(FieldEdit::Insert('4')));
    assert!(!f.apply(FieldEdit::Insert('x')));
    assert!(f.apply(FieldEdit::Insert('2')));
    assert_eq!(f.text(), "42");
}

#[test]
fn control_characters_are_rejected() {
    let mut f = digits("");
    assert!(f.apply(FieldEdit::Insert('4')));
    assert!(!f.apply(FieldEdit::Insert('\n')));
    assert!(!f.apply(FieldEdit::Insert('\t')));
    assert_eq!(f.text(), "4");
}

#[test]
fn insert_happens_at_the_caret_not_the_end() {
    let mut f = digits("300");
    f.apply(FieldEdit::Home { extend: false });
    f.apply(FieldEdit::Right { extend: false });
    f.apply(FieldEdit::Insert('9'));
    assert_eq!(f.text(), "3900");
    assert_eq!(f.cursor(), 2);
}

#[test]
fn max_len_is_enforced() {
    let mut f = digits("123456");
    assert!(!f.apply(FieldEdit::Insert('7')));
    assert_eq!(f.text(), "123456");
}

#[test]
fn backspace_removes_char_left_of_caret() {
    let mut f = digits("300");
    f.apply(FieldEdit::Backspace);
    assert_eq!(f.text(), "30");
    assert_eq!(f.cursor(), 2);
}

#[test]
fn backspace_at_start_does_nothing() {
    let mut f = digits("30");
    f.apply(FieldEdit::Home { extend: false });
    assert!(!f.apply(FieldEdit::Backspace));
    assert_eq!(f.text(), "30");
}

#[test]
fn delete_removes_char_right_of_caret() {
    let mut f = digits("300");
    f.apply(FieldEdit::Home { extend: false });
    f.apply(FieldEdit::Delete);
    assert_eq!(f.text(), "00");
    assert_eq!(f.cursor(), 0);
}

#[test]
fn delete_at_end_does_nothing() {
    let mut f = digits("30");
    assert!(!f.apply(FieldEdit::Delete));
    assert_eq!(f.text(), "30");
}

#[test]
fn arrows_move_the_caret() {
    let mut f = digits("300");
    f.apply(FieldEdit::Left { extend: false });
    assert_eq!(f.cursor(), 2);
    f.apply(FieldEdit::Left { extend: false });
    assert_eq!(f.cursor(), 1);
    f.apply(FieldEdit::Right { extend: false });
    assert_eq!(f.cursor(), 2);
}

#[test]
fn home_and_end_jump_to_the_extremes() {
    let mut f = digits("3000");
    f.apply(FieldEdit::Home { extend: false });
    assert_eq!(f.cursor(), 0);
    f.apply(FieldEdit::End { extend: false });
    assert_eq!(f.cursor(), 4);
}

#[test]
fn shift_arrow_grows_a_selection() {
    let mut f = digits("3000");
    f.apply(FieldEdit::Home { extend: false });
    f.apply(FieldEdit::Right { extend: true });
    f.apply(FieldEdit::Right { extend: true });
    assert_eq!(f.selection(), Some((0, 2)));
}

#[test]
fn shift_home_selects_to_the_start() {
    let mut f = digits("3000");
    f.apply(FieldEdit::Home { extend: true });
    assert_eq!(f.selection(), Some((0, 4)));
}

#[test]
fn unshifted_arrow_collapses_selection_to_near_edge() {
    let mut f = digits("3000");
    f.apply(FieldEdit::SelectAll);
    f.apply(FieldEdit::Left { extend: false });
    assert_eq!(f.selection(), None);
    assert_eq!(f.cursor(), 0);

    let mut g = digits("3000");
    g.apply(FieldEdit::SelectAll);
    g.apply(FieldEdit::Right { extend: false });
    assert_eq!(g.selection(), None);
    assert_eq!(g.cursor(), 4);
}

#[test]
fn typing_replaces_the_selection() {
    let mut f = digits("3000");
    f.apply(FieldEdit::SelectAll);
    f.apply(FieldEdit::Insert('5'));
    assert_eq!(f.text(), "5");
    assert_eq!(f.selection(), None);
    assert_eq!(f.cursor(), 1);
}

#[test]
fn backspace_deletes_the_selection() {
    let mut f = digits("3000");
    f.apply(FieldEdit::Home { extend: false });
    f.apply(FieldEdit::Right { extend: true });
    f.apply(FieldEdit::Right { extend: true });
    f.apply(FieldEdit::Backspace);
    assert_eq!(f.text(), "00");
    assert_eq!(f.selection(), None);
}

#[test]
fn delete_deletes_the_selection() {
    let mut f = digits("3000");
    f.apply(FieldEdit::SelectAll);
    f.apply(FieldEdit::Delete);
    assert_eq!(f.text(), "");
}

#[test]
fn select_all_covers_the_whole_text() {
    let mut f = digits("3000");
    assert!(f.apply(FieldEdit::SelectAll));
    assert_eq!(f.selection(), Some((0, 4)));
}

#[test]
fn select_all_on_empty_does_nothing() {
    let mut f = digits("");
    assert!(!f.apply(FieldEdit::SelectAll));
    assert_eq!(f.selection(), None);
}

#[test]
fn caret_to_places_and_clamps() {
    let mut f = digits("3000");
    f.apply(FieldEdit::CaretTo {
        index: 2,
        extend: false,
    });
    assert_eq!(f.cursor(), 2);
    f.apply(FieldEdit::CaretTo {
        index: 99,
        extend: false,
    });
    assert_eq!(f.cursor(), 4);
}

#[test]
fn caret_to_with_extend_selects_from_anchor() {
    let mut f = digits("3000");
    f.apply(FieldEdit::Home { extend: false });
    f.apply(FieldEdit::CaretTo {
        index: 3,
        extend: true,
    });
    assert_eq!(f.selection(), Some((0, 3)));
}

#[test]
fn a_caret_move_that_stays_put_reports_the_anchor_it_drops() {
    let mut f = digits("3000");
    f.apply(FieldEdit::Home { extend: true });
    assert_eq!(f.selection(), Some((0, 4)));
    assert!(
        f.apply(FieldEdit::Home { extend: false }),
        "dropping the anchor is a change even though the caret stays"
    );
    assert_eq!(f.selection(), None);
    assert_eq!(f.cursor(), 0);
    assert!(
        !f.apply(FieldEdit::Home { extend: false }),
        "and once there is nothing to drop, Home changes nothing"
    );

    let mut g = digits("3000");
    g.apply(FieldEdit::Home { extend: true });
    assert!(!g.apply(FieldEdit::Home { extend: true }));
    assert_eq!(g.selection(), Some((0, 4)));

    let mut h = digits("3000");
    h.apply(FieldEdit::Home { extend: false });
    h.apply(FieldEdit::End { extend: true });
    assert_eq!(h.selection(), Some((0, 4)));
    assert!(h.apply(FieldEdit::End { extend: false }));
    assert_eq!(h.selection(), None);
    assert_eq!(h.cursor(), 4);
    assert!(!h.apply(FieldEdit::End { extend: false }));

    let mut k = digits("3000");
    k.apply(FieldEdit::SelectAll);
    assert_eq!(k.cursor(), 4);
    assert!(k.apply(FieldEdit::CaretTo {
        index: 4,
        extend: false
    }));
    assert_eq!(k.selection(), None);
    assert!(!k.apply(FieldEdit::CaretTo {
        index: 4,
        extend: false
    }));
}

#[test]
fn a_click_past_the_end_clamps_before_deciding_it_changed_anything() {
    let mut f = digits("3000");
    assert_eq!(f.cursor(), 4);
    assert!(!f.apply(FieldEdit::CaretTo {
        index: 99,
        extend: false
    }));
    assert_eq!(f.cursor(), 4);
}

#[test]
fn a_shifted_arrow_against_the_edge_reports_nothing() {
    let mut f = digits("3000");
    f.apply(FieldEdit::Home { extend: true });
    assert!(!f.apply(FieldEdit::Left { extend: true }));
    assert_eq!(f.selection(), Some((0, 4)));
    assert_eq!(f.cursor(), 0);
    assert_eq!(f.text(), "3000");

    let mut g = digits("3000");
    g.apply(FieldEdit::Home { extend: false });
    g.apply(FieldEdit::End { extend: true });
    assert!(!g.apply(FieldEdit::Right { extend: true }));
    assert_eq!(g.selection(), Some((0, 4)));
    assert_eq!(g.cursor(), 4);
    assert!(g.apply(FieldEdit::Right { extend: false }), "dropping the selection is a change");
    assert!(!g.apply(FieldEdit::Right { extend: false }));
}

#[test]
fn selecting_all_of_a_selected_field_reports_nothing() {
    let mut f = digits("3000");
    assert!(f.apply(FieldEdit::SelectAll));
    assert!(!f.apply(FieldEdit::SelectAll));
    assert_eq!(f.selection(), Some((0, 4)));
    assert_eq!(f.cursor(), 4);
    assert_eq!(f.text(), "3000");

    let mut g = digits("3000");
    g.apply(FieldEdit::Home { extend: true });
    assert!(g.apply(FieldEdit::SelectAll), "the caret changes ends");
    assert_eq!(g.cursor(), 4);
}

#[test]
fn every_edit_reports_exactly_what_it_did() {
    let state = |f: &TextField| (f.text().to_owned(), f.cursor(), f.selection());
    let mut edits = vec![
        FieldEdit::Insert('7'),
        FieldEdit::Insert('x'),
        FieldEdit::Backspace,
        FieldEdit::Delete,
        FieldEdit::SelectAll,
    ];
    for extend in [false, true] {
        edits.push(FieldEdit::Left { extend });
        edits.push(FieldEdit::Right { extend });
        edits.push(FieldEdit::Home { extend });
        edits.push(FieldEdit::End { extend });
        edits.push(FieldEdit::CaretTo { index: 2, extend });
        edits.push(FieldEdit::CaretTo { index: 99, extend });
    }
    for a in 0..=4usize {
        for b in 0..=4usize {
            for edit in &edits {
                let mut f = TextField::new("3000", CharFilter::Digits, 4);
                f.apply(FieldEdit::CaretTo { index: a, extend: false });
                f.apply(FieldEdit::CaretTo { index: b, extend: true });
                let before = state(&f);
                let changed = f.apply(*edit);
                assert_eq!(changed, state(&f) != before, "{edit:?} from {a} to {b}");
            }
        }
    }
}
