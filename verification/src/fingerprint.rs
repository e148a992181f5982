//! The fingerprint a measured size is remembered under.
//!
//! Everything that enters the measurement is spelled as a sequence of words and
//! hashed: the theme's metrics whole, and of each row its kind, its text and
//! the numbers that enter the arithmetic. Scroll offsets, highlights, open
//! flags, tick states, ids and colours are left out, because none of them
//! changes how large a row is.

use crate::arith::larger;
use crate::color::Color;
use crate::layout::{
    a_found_slot_holds_its_key, action_need, half_need, has_header, labels_need, measured,
    remembered, singles_need, slot_of, stacked, text_width_in, values_need, width_need, Measured,
    SizeKeyView,
};
use crate::row::{items_view, rows_view, DropdownItem, Gap, HotspotId, ItemView, Row, RowView};
use crate::text::{ScriptView, TextModel};
use crate::theme::{Metrics, ScaledTheme};
use std::collections::hash_map::DefaultHasher;
use std::hash::Hasher;
use vstd::bytes::{spec_u64_to_le_bytes, u64_to_le_bytes};
use vstd::prelude::*;
use vstd::std_specs::hash::DefaultHasherAdditionalSpecFns;
use vstd::string::*;

verus! {

/// A signed pixel count as a word.
pub open spec fn signed_word(x: i32) -> u64 {
    (x + 0x8000_0000) as u64
}

/// The words of a theme's metrics.
pub open spec fn metric_words(m: Metrics) -> Seq<u64> {
    seq![
        signed_word(m.corner_radius),
        signed_word(m.padding),
        signed_word(m.spacing),
        signed_word(m.column_gap),
        signed_word(m.indent),
        signed_word(m.panel_width),
        signed_word(m.settings_width),
        signed_word(m.row_height),
        signed_word(m.button_min_width),
    ]
}

/// The word after the last character of a text: no character is worth as much.
pub const END_OF_TEXT: u64 = 0xFFFF_FFFF_FFFF_FFFF;

/// The words of a text: its characters and the end of it.
pub open spec fn text_words(text: Seq<char>) -> Seq<u64> {
    Seq::new(text.len(), |i: int| text[i] as u64).push(END_OF_TEXT)
}

/// The words of an optional family.
pub open spec fn family_words(font: Option<Seq<char>>) -> Seq<u64> {
    match font {
        Some(name) => seq![1u64] + text_words(name),
        None => seq![0u64],
    }
}

/// The words of one option.
pub open spec fn item_words(item: ItemView) -> Seq<u64> {
    text_words(item.label) + (text_words(item.native) + family_words(item.font))
}

/// The words of some options: each announced, and the end of them.
pub open spec fn items_words(items: Seq<ItemView>) -> Seq<u64>
    decreases items.len(),
{
    if items.len() == 0 {
        seq![0u64]
    } else {
        seq![1u64] + (item_words(items[0]) + items_words(items.skip(1)))
    }
}

/// The words of one row: its kind, then what is measured of it.
pub open spec fn row_words(row: RowView) -> Seq<u64> {
    match row {
        RowView::Header(text) => seq![0u64] + text_words(text),
        RowView::Pair { label, value, .. } => seq![1u64] + (text_words(label) + text_words(value)),
        RowView::Wrapped { text, .. } => seq![2u64] + text_words(text),
        RowView::Notice { .. } => seq![3u64],
        RowView::LabeledButton { label, value, button, .. } => seq![4u64] + (text_words(label) + (
        text_words(value) + text_words(button))),
        RowView::TitleButton { title, button, .. } => seq![5u64] + (text_words(title) + text_words(
            button,
        )),
        RowView::Checkbox { label, depth, .. } => seq![6u64, depth as u64] + text_words(label),
        RowView::Dropdown { label, options, .. } => seq![7u64] + (text_words(label) + items_words(
            options,
        )),
        RowView::Field { label, value, .. } => seq![8u64] + (text_words(label) + text_words(value)),
        RowView::Buttons { left, right, .. } => seq![9u64] + (text_words(left) + text_words(right)),
        RowView::Space(gap) => seq![10u64, if gap is Half { 0u64 } else { 1u64 }],
    }
}

/// The words of some rows, one after the other.
pub open spec fn rows_words(rows: Seq<RowView>) -> Seq<u64>
    decreases rows.len(),
{
    if rows.len() == 0 {
        seq![]
    } else {
        row_words(rows[0]) + rows_words(rows.skip(1))
    }
}

/// Everything in `rows` and `m` that the measured size depends on.
pub open spec fn size_words(rows: Seq<RowView>, m: Metrics) -> Seq<u64> {
    metric_words(m) + rows_words(rows)
}

/// Words as they are written to the hasher: eight bytes each, one write per
/// word.
pub open spec fn written(words: Seq<u64>) -> Seq<Seq<u8>> {
    Seq::new(words.len(), |i: int| spec_u64_to_le_bytes(words[i]))
}

/// The hash of some words.
pub open spec fn hash_of(words: Seq<u64>) -> u64 {
    DefaultHasher::spec_finish(written(words))
}

/// `x` turned left by one bit.
pub open spec fn turned(x: u64) -> u64 {
    (x << 1) | (x >> 63)
}

/// The key the size of a window is remembered under.
pub open spec fn size_key(
    rows: Seq<RowView>,
    samples: Seq<RowView>,
    m: Metrics,
    script: ScriptView,
    min_width: i32,
) -> SizeKeyView {
    SizeKeyView {
        text: hash_of(size_words(rows, m)) ^ turned(hash_of(size_words(samples, m))),
        script,
        min_width,
    }
}

fn word_of(x: i32) -> (w: u64)
    ensures
        w == signed_word(x),
{
    (x as i64 + 0x8000_0000) as u64
}

fn push_metrics(words: &mut Vec<u64>, m: Metrics)
    ensures
        final(words)@ == old(words)@ + metric_words(m),
{
    let ghost before = words@;
    words.push(word_of(m.corner_radius));
    words.push(word_of(m.padding));
    words.push(word_of(m.spacing));
    words.push(word_of(m.column_gap));
    words.push(word_of(m.indent));
    words.push(word_of(m.panel_width));
    words.push(word_of(m.settings_width));
    words.push(word_of(m.row_height));
    words.push(word_of(m.button_min_width));
    proof {
        assert(words@ =~= before + metric_words(m));
    }
}

fn push_text(words: &mut Vec<u64>, text: &str)
    ensures
        final(words)@ == old(words)@ + text_words(text@),
{
    let ghost before = words@;
    let n: usize = text.unicode_len();
    let mut i: usize = 0;
    proof {
        assert(words@ =~= before + text_words(text@).take(0));
    }
    while i < n
        invariant
            i <= n,
            n == text@.len(),
            words@ == before + text_words(text@).take(i as int),
        decreases n - i,
    {
        let ch: char = text.get_char(i);
        words.push(ch as u64);
        i = i + 1;
        proof {
            assert(words@ =~= before + text_words(text@).take(i as int));
        }
    }
    words.push(END_OF_TEXT);
    proof {
        assert(words@ =~= before + text_words(text@));
    }
}

fn push_item(words: &mut Vec<u64>, item: &DropdownItem)
    ensures
        final(words)@ == old(words)@ + item_words(item@),
{
    let ghost before = words@;
    push_text(words, item.label.as_str());
    push_text(words, item.native.as_str());
    match item.font {
        Some(name) => {
            words.push(1);
            push_text(words, name);
        },
        None => {
            words.push(0);
        },
    }
    proof {
        assert(words@ =~= before + item_words(item@));
    }
}

fn push_items(words: &mut Vec<u64>, items: &Vec<DropdownItem>)
    ensures
        final(words)@ == old(words)@ + items_words(items_view(items@)),
{
    let ghost before = words@;
    let ghost views = items_view(items@);
    let mut i: usize = 0;
    proof {
        assert(views.skip(0) =~= views);
    }
    while i < items.len()
        invariant
            i <= items@.len(),
            views == items_view(items@),
            before + items_words(views) == words@ + items_words(views.skip(i as int)),
        decreases items.len() - i,
    {
        let ghost sofar = words@;
        words.push(1);
        push_item(words, &items[i]);
        proof {
            let rest = views.skip(i as int);
            assert(rest[0] == items@[i as int]@);
            assert(rest.skip(1) =~= views.skip(i + 1));
            assert(sofar + (seq![1u64] + (item_words(rest[0]) + items_words(rest.skip(1))))
                =~= words@ + items_words(views.skip(i + 1)));
        }
        i = i + 1;
    }
    words.push(0);
    proof {
        assert(words@ =~= before + items_words(views));
    }
}

fn push_row(words: &mut Vec<u64>, row: &Row)
    ensures
        final(words)@ == old(words)@ + row_words(row@),
{
    let ghost before = words@;
    match row {
        Row::Header(text) => {
            words.push(0);
            push_text(words, text.as_str());
        },
        Row::Pair { label, value, .. } => {
            words.push(1);
            push_text(words, label.as_str());
            push_text(words, value.as_str());
        },
        // Sets no column, but its text is its height.
        Row::Wrapped { text, .. } => {
            words.push(2);
            push_text(words, text.as_str());
        },
        // Neither its width nor its height depends on its text.
        Row::Notice { .. } => {
            words.push(3);
        },
        Row::LabeledButton { label, value, button, .. } => {
            words.push(4);
            push_text(words, label.as_str());
            push_text(words, value.as_str());
            push_text(words, button.as_str());
        },
        Row::TitleButton { title, button, .. } => {
            words.push(5);
            push_text(words, title.as_str());
            push_text(words, button.as_str());
        },
        Row::Checkbox { label, depth, .. } => {
            words.push(6);
            words.push(*depth as u64);
            push_text(words, label.as_str());
        },
        // Every option, because the closed control is sized to the widest of
        // them, and its family, because the option is measured in it.
        Row::Dropdown { label, options, .. } => {
            words.push(7);
            push_text(words, label.as_str());
            push_items(words, options);
        },
        Row::Field { label, value, .. } => {
            words.push(8);
            push_text(words, label.as_str());
            push_text(words, value.as_str());
        },
        Row::Buttons { left, right, .. } => {
            words.push(9);
            push_text(words, left.as_str());
            push_text(words, right.as_str());
        },
        // Which step the gap is, since the two are different heights.
        Row::Space(gap) => {
            words.push(10);
            words.push(
                match gap {
                    Gap::Half => 0,
                    Gap::Single => 1,
                },
            );
        },
    }
    proof {
        assert(words@ =~= before + row_words(row@));
    }
}

/// The words everything that affects the measured size is spelled as.
pub fn words_of(rows: &[Row], theme: &ScaledTheme) -> (words: Vec<u64>)
    ensures
        words@ == size_words(rows_view(rows@), theme.geometry()),
{
    let mut words: Vec<u64> = Vec::new();
    push_metrics(&mut words, theme.metrics());
    let ghost views = rows_view(rows@);
    let ghost all = size_words(views, theme.geometry());
    let mut i: usize = 0;
    proof {
        assert(words@ =~= metric_words(theme.geometry()));
        assert(views.skip(0) =~= views);
    }
    while i < rows.len()
        invariant
            i <= rows@.len(),
            views == rows_view(rows@),
            all == words@ + rows_words(views.skip(i as int)),
        decreases rows.len() - i,
    {
        let ghost sofar = words@;
        push_row(&mut words, &rows[i]);
        proof {
            let rest = views.skip(i as int);
            assert(rest[0] == rows@[i as int]@);
            assert(rest.skip(1) =~= views.skip(i + 1));
            assert(sofar + (row_words(rest[0]) + rows_words(rest.skip(1))) =~= words@ + rows_words(
                views.skip(i + 1),
            ));
        }
        i = i + 1;
    }
    proof {
        assert(words@ + rows_words(views.skip(i as int)) =~= words@);
    }
    words
}

fn hash_words(words: &Vec<u64>) -> (h: u64)
    ensures
        h == hash_of(words@),
{
    let mut hasher = DefaultHasher::new();
    let mut i: usize = 0;
    proof {
        assert(written(words@).take(0) =~= seq![]);
    }
    while i < words.len()
        invariant
            i <= words@.len(),
            hasher@ == written(words@).take(i as int),
        decreases words.len() - i,
    {
        let bytes = u64_to_le_bytes(words[i]);
        hasher.write(bytes.as_slice());
        i = i + 1;
        proof {
            assert(hasher@ =~= written(words@).take(i as int));
        }
    }
    proof {
        assert(written(words@).take(i as int) =~= written(words@));
    }
    hasher.finish()
}

/// Hash of everything in `rows` that affects the measured size.
pub fn text_fingerprint(rows: &[Row], theme: &ScaledTheme) -> (h: u64)
    ensures
        h == hash_of(size_words(rows_view(rows@), theme.geometry())),
{
    hash_words(&words_of(rows, theme))
}

/// A row with everything its size does not depend on blanked out.
pub open spec fn sized(row: RowView) -> RowView {
    let ink = Color { r: 0, g: 0, b: 0, a: 0 };
    let id = HotspotId(0);
    match row {
        RowView::Header(text) => RowView::Header(text),
        RowView::Pair { label, value, .. } => RowView::Pair { label, value, color: ink },
        RowView::Wrapped { text, .. } => RowView::Wrapped { text, color: ink },
        RowView::Notice { .. } => RowView::Notice { text: seq![], color: ink },
        RowView::LabeledButton { label, value, button, .. } => RowView::LabeledButton {
            label,
            value,
            color: ink,
            button,
            id,
            enabled: false,
        },
        RowView::TitleButton { title, button, .. } => RowView::TitleButton { title, button, id },
        RowView::Checkbox { label, depth, .. } => RowView::Checkbox {
            label,
            checked: false,
            depth,
            id,
        },
        RowView::Dropdown { label, options, .. } => RowView::Dropdown {
            label,
            options,
            selected: 0,
            highlighted: 0,
            open: false,
            scroll: 0,
            id,
        },
        RowView::Field { label, value, .. } => RowView::Field {
            label,
            value,
            caret: 0,
            sel_start: 0,
            sel_end: 0,
            id,
        },
        RowView::Buttons { left, right, .. } => RowView::Buttons {
            left,
            left_id: id,
            right,
            right_id: id,
        },
        RowView::Space(gap) => RowView::Space(gap),
    }
}

/// Two lists of rows that are the same size row by row.
pub open spec fn same_sizes(a: Seq<RowView>, b: Seq<RowView>) -> bool {
    &&& a.len() == b.len()
    &&& forall|i: int| 0 <= i < a.len() ==> sized(#[trigger] a[i]) == sized(b[i])
}

/// The front parts of two equal sequences are equal when they are as long as
/// each other, and so are the rests.
proof fn equal_fronts(a: Seq<u64>, x: Seq<u64>, b: Seq<u64>, y: Seq<u64>)
    requires
        a + x == b + y,
        a.len() == b.len(),
    ensures
        a == b,
        x == y,
{
    assert(a =~= (a + x).take(a.len() as int));
    assert(b =~= (b + y).take(b.len() as int));
    assert(x =~= (a + x).skip(a.len() as int));
    assert(y =~= (b + y).skip(b.len() as int));
}

/// A character is a word of its own, below the one that ends a text.
proof fn characters_are_distinct_words(c: char, d: char)
    ensures
        (c as u64) < END_OF_TEXT,
        c as u64 == d as u64 ==> c == d,
{
}

proof fn texts_part(s: Seq<char>, x: Seq<u64>, t: Seq<char>, y: Seq<u64>)
    requires
        text_words(s) + x == text_words(t) + y,
    ensures
        s == t,
        x == y,
{
    let left = text_words(s) + x;
    let right = text_words(t) + y;
    if s.len() < t.len() {
        assert(left[s.len() as int] == END_OF_TEXT);
        assert(right[s.len() as int] == t[s.len() as int] as u64);
        characters_are_distinct_words(t[s.len() as int], t[s.len() as int]);
        assert(false);
    }
    if t.len() < s.len() {
        assert(right[t.len() as int] == END_OF_TEXT);
        assert(left[t.len() as int] == s[t.len() as int] as u64);
        characters_are_distinct_words(s[t.len() as int], s[t.len() as int]);
        assert(false);
    }
    equal_fronts(text_words(s), x, text_words(t), y);
    assert forall|i: int| 0 <= i < s.len() implies s[i] == t[i] by {
        assert(text_words(s)[i] == s[i] as u64);
        assert(text_words(t)[i] == t[i] as u64);
        characters_are_distinct_words(s[i], t[i]);
    }
    assert(s =~= t);
}

/// As [`texts_part`], with the rest spelled as a sum.
proof fn texts_part_then(
    s: Seq<char>,
    more: Seq<u64>,
    x: Seq<u64>,
    t: Seq<char>,
    less: Seq<u64>,
    y: Seq<u64>,
)
    requires
        (text_words(s) + more) + x == (text_words(t) + less) + y,
    ensures
        s == t,
        more + x == less + y,
{
    assert((text_words(s) + more) + x =~= text_words(s) + (more + x));
    assert((text_words(t) + less) + y =~= text_words(t) + (less + y));
    texts_part(s, more + x, t, less + y);
}

/// A known first word parts from what follows it.
proof fn heads_part(p: u64, a: Seq<u64>, x: Seq<u64>, q: u64, b: Seq<u64>, y: Seq<u64>)
    requires
        (seq![p] + a) + x == (seq![q] + b) + y,
    ensures
        p == q,
        a + x == b + y,
{
    assert((seq![p] + a) + x =~= seq![p] + (a + x));
    assert((seq![q] + b) + y =~= seq![q] + (b + y));
    equal_fronts(seq![p], a + x, seq![q], b + y);
    assert(seq![p][0] == seq![q][0]);
}

proof fn families_part(f: Option<Seq<char>>, x: Seq<u64>, g: Option<Seq<char>>, y: Seq<u64>)
    requires
        family_words(f) + x == family_words(g) + y,
    ensures
        f == g,
        x == y,
{
    assert((family_words(f) + x)[0] == family_words(f)[0]);
    assert((family_words(g) + y)[0] == family_words(g)[0]);
    match (f, g) {
        (Some(s), Some(t)) => {
            heads_part(1, text_words(s), x, 1, text_words(t), y);
            texts_part(s, x, t, y);
        },
        (None, None) => {
            equal_fronts(seq![0u64], x, seq![0u64], y);
        },
        _ => {},
    }
}

proof fn items_part(a: ItemView, x: Seq<u64>, b: ItemView, y: Seq<u64>)
    requires
        item_words(a) + x == item_words(b) + y,
    ensures
        a == b,
        x == y,
{
    texts_part_then(
        a.label,
        text_words(a.native) + family_words(a.font),
        x,
        b.label,
        text_words(b.native) + family_words(b.font),
        y,
    );
    texts_part_then(
        a.native,
        family_words(a.font),
        x,
        b.native,
        family_words(b.font),
        y,
    );
    families_part(a.font, x, b.font, y);
}

proof fn lists_part(a: Seq<ItemView>, x: Seq<u64>, b: Seq<ItemView>, y: Seq<u64>)
    requires
        items_words(a) + x == items_words(b) + y,
    ensures
        a == b,
        x == y,
    decreases a.len(),
{
    assert((items_words(a) + x)[0] == items_words(a)[0]);
    assert((items_words(b) + y)[0] == items_words(b)[0]);
    if a.len() == 0 || b.len() == 0 {
        assert(a.len() == 0 && b.len() == 0);
        equal_fronts(seq![0u64], x, seq![0u64], y);
        assert(a =~= b);
    } else {
        let more = items_words(a.skip(1));
        let less = items_words(b.skip(1));
        heads_part(1, item_words(a[0]) + more, x, 1, item_words(b[0]) + less, y);
        assert((item_words(a[0]) + more) + x =~= item_words(a[0]) + (more + x));
        assert((item_words(b[0]) + less) + y =~= item_words(b[0]) + (less + y));
        items_part(a[0], more + x, b[0], less + y);
        lists_part(a.skip(1), x, b.skip(1), y);
        assert(a =~= seq![a[0]] + a.skip(1));
        assert(b =~= seq![b[0]] + b.skip(1));
    }
}

proof fn rows_part(a: RowView, x: Seq<u64>, b: RowView, y: Seq<u64>)
    requires
        row_words(a) + x == row_words(b) + y,
    ensures
        sized(a) == sized(b),
        x == y,
{
    assert((row_words(a) + x)[0] == row_words(a)[0]);
    assert((row_words(b) + y)[0] == row_words(b)[0]);
    match (a, b) {
        (RowView::Header(s), RowView::Header(t)) => {
            heads_part(0, text_words(s), x, 0, text_words(t), y);
            texts_part(s, x, t, y);
        },
        (
            RowView::Pair { label: l1, value: v1, .. },
            RowView::Pair { label: l2, value: v2, .. },
        ) => {
            heads_part(1, text_words(l1) + text_words(v1), x, 1, text_words(l2) + text_words(v2), y);
            texts_part_then(l1, text_words(v1), x, l2, text_words(v2), y);
            texts_part(v1, x, v2, y);
        },
        (RowView::Wrapped { text: s, .. }, RowView::Wrapped { text: t, .. }) => {
            heads_part(2, text_words(s), x, 2, text_words(t), y);
            texts_part(s, x, t, y);
        },
        (RowView::Notice { .. }, RowView::Notice { .. }) => {
            equal_fronts(seq![3u64], x, seq![3u64], y);
        },
        (
            RowView::LabeledButton { label: l1, value: v1, button: b1, .. },
            RowView::LabeledButton { label: l2, value: v2, button: b2, .. },
        ) => {
            heads_part(
                4,
                text_words(l1) + (text_words(v1) + text_words(b1)),
                x,
                4,
                text_words(l2) + (text_words(v2) + text_words(b2)),
                y,
            );
            texts_part_then(
                l1,
                text_words(v1) + text_words(b1),
                x,
                l2,
                text_words(v2) + text_words(b2),
                y,
            );
            texts_part_then(v1, text_words(b1), x, v2, text_words(b2), y);
            texts_part(b1, x, b2, y);
        },
        (
            RowView::TitleButton { title: t1, button: b1, .. },
            RowView::TitleButton { title: t2, button: b2, .. },
        ) => {
            heads_part(5, text_words(t1) + text_words(b1), x, 5, text_words(t2) + text_words(b2), y);
            texts_part_then(t1, text_words(b1), x, t2, text_words(b2), y);
            texts_part(b1, x, b2, y);
        },
        (
            RowView::Checkbox { label: l1, depth: d1, .. },
            RowView::Checkbox { label: l2, depth: d2, .. },
        ) => {
            assert((row_words(a) + x)[1] == d1 as u64);
            assert((row_words(b) + y)[1] == d2 as u64);
            let h1 = seq![6u64, d1 as u64];
            let h2 = seq![6u64, d2 as u64];
            assert((h1 + text_words(l1)) + x =~= h1 + (text_words(l1) + x));
            assert((h2 + text_words(l2)) + y =~= h2 + (text_words(l2) + y));
            equal_fronts(h1, text_words(l1) + x, h2, text_words(l2) + y);
            texts_part(l1, x, l2, y);
        },
        (
            RowView::Dropdown { label: l1, options: o1, .. },
            RowView::Dropdown { label: l2, options: o2, .. },
        ) => {
            heads_part(
                7,
                text_words(l1) + items_words(o1),
                x,
                7,
                text_words(l2) + items_words(o2),
                y,
            );
            texts_part_then(l1, items_words(o1), x, l2, items_words(o2), y);
            lists_part(o1, x, o2, y);
        },
        (
            RowView::Field { label: l1, value: v1, .. },
            RowView::Field { label: l2, value: v2, .. },
        ) => {
            heads_part(8, text_words(l1) + text_words(v1), x, 8, text_words(l2) + text_words(v2), y);
            texts_part_then(l1, text_words(v1), x, l2, text_words(v2), y);
            texts_part(v1, x, v2, y);
        },
        (
            RowView::Buttons { left: l1, right: r1, .. },
            RowView::Buttons { left: l2, right: r2, .. },
        ) => {
            heads_part(9, text_words(l1) + text_words(r1), x, 9, text_words(l2) + text_words(r2), y);
            texts_part_then(l1, text_words(r1), x, l2, text_words(r2), y);
            texts_part(r1, x, r2, y);
        },
        (RowView::Space(g1), RowView::Space(g2)) => {
            assert((row_words(a) + x)[1] == row_words(a)[1]);
            assert((row_words(b) + y)[1] == row_words(b)[1]);
            equal_fronts(row_words(a), x, row_words(b), y);
        },
        _ => {
            assert(false);
        },
    }
}

proof fn equal_words_part(a: Seq<RowView>, b: Seq<RowView>)
    requires
        rows_words(a) == rows_words(b),
    ensures
        same_sizes(a, b),
    decreases a.len(),
{
    if a.len() == 0 {
        if b.len() > 0 {
            assert(row_words(b[0]).len() > 0);
            assert(rows_words(b).len() > 0);
        }
    } else if b.len() == 0 {
        assert(row_words(a[0]).len() > 0);
        assert(rows_words(a).len() > 0);
    } else {
        rows_part(a[0], rows_words(a.skip(1)), b[0], rows_words(b.skip(1)));
        equal_words_part(a.skip(1), b.skip(1));
        assert forall|i: int| 0 <= i < a.len() implies sized(#[trigger] a[i]) == sized(b[i]) by {
            if i > 0 {
                assert(a[i] == a.skip(1)[i - 1]);
                assert(b[i] == b.skip(1)[i - 1]);
            }
        }
    }
}

/// The words leave out nothing a measurement depends on and hold nothing it
/// does not: two windows spell the same words exactly when their metrics are
/// the same and their rows are the same size one by one.
pub proof fn words_say_exactly_what_is_measured(
    a: Seq<RowView>,
    m: Metrics,
    b: Seq<RowView>,
    n: Metrics,
)
    ensures
        (size_words(a, m) == size_words(b, n)) == (m == n && same_sizes(a, b)),
{
    if size_words(a, m) == size_words(b, n) {
        equal_fronts(metric_words(m), rows_words(a), metric_words(n), rows_words(b));
        assert(metric_words(m)[0] == metric_words(n)[0]);
        assert(metric_words(m)[1] == metric_words(n)[1]);
        assert(metric_words(m)[2] == metric_words(n)[2]);
        assert(metric_words(m)[3] == metric_words(n)[3]);
        assert(metric_words(m)[4] == metric_words(n)[4]);
        assert(metric_words(m)[5] == metric_words(n)[5]);
        assert(metric_words(m)[6] == metric_words(n)[6]);
        assert(metric_words(m)[7] == metric_words(n)[7]);
        assert(metric_words(m)[8] == metric_words(n)[8]);
        equal_words_part(a, b);
    }
    if m == n && same_sizes(a, b) {
        same_sizes_spell_alike(a, b);
    }
}

proof fn same_sizes_spell_alike(a: Seq<RowView>, b: Seq<RowView>)
    requires
        same_sizes(a, b),
    ensures
        rows_words(a) == rows_words(b),
    decreases a.len(),
{
    if a.len() > 0 {
        assert(sized(a[0]) == sized(b[0]));
        assert(row_words(a[0]) == row_words(sized(a[0])));
        assert(row_words(b[0]) == row_words(sized(b[0])));
        assert forall|i: int| 0 <= i < a.len() - 1 implies sized(#[trigger] a.skip(1)[i]) == sized(
            b.skip(1)[i],
        ) by {
            assert(sized(a[i + 1]) == sized(b[i + 1]));
        }
        same_sizes_spell_alike(a.skip(1), b.skip(1));
    }
}

proof fn same_sizes_need_alike(
    a: Seq<RowView>,
    b: Seq<RowView>,
    m: Metrics,
    action: int,
    model: TextModel,
)
    requires
        same_sizes(a, b),
    ensures
        action_need(a, m, model) == action_need(b, m, model),
        labels_need(a, model) == labels_need(b, model),
        values_need(a, m, action, model) == values_need(b, m, action, model),
        singles_need(a, m, model) == singles_need(b, m, model),
    decreases a.len(),
{
    if a.len() > 0 {
        let i = a.len() - 1;
        assert(sized(a[i]) == sized(b[i]));
        assert forall|j: int| 0 <= j < i implies sized(#[trigger] a.drop_last()[j]) == sized(
            b.drop_last()[j],
        ) by {
            assert(sized(a[j]) == sized(b[j]));
        }
        same_sizes_need_alike(a.drop_last(), b.drop_last(), m, action, model);
    }
}

proof fn same_sizes_stack_alike(
    a: Seq<RowView>,
    b: Seq<RowView>,
    m: Metrics,
    wrap_width: int,
    model: TextModel,
)
    requires
        same_sizes(a, b),
    ensures
        has_header(a) == has_header(b),
        stacked(a, m, wrap_width, model) == stacked(b, m, wrap_width, model),
    decreases a.len(),
{
    if a.len() > 0 {
        let i = a.len() - 1;
        assert(sized(a[i]) == sized(b[i]));
        assert forall|j: int| 0 <= j < i implies sized(#[trigger] a.drop_last()[j]) == sized(
            b.drop_last()[j],
        ) by {
            assert(sized(a[j]) == sized(b[j]));
        }
        same_sizes_stack_alike(a.drop_last(), b.drop_last(), m, wrap_width, model);
    }
}

/// Windows that spell the same words measure to the same size, so a size
/// remembered under them is the size measuring again would give.
pub proof fn equal_words_measure_alike(
    rows: Seq<RowView>,
    samples: Seq<RowView>,
    m: Metrics,
    other_rows: Seq<RowView>,
    other_samples: Seq<RowView>,
    n: Metrics,
    min_width: int,
    model: TextModel,
)
    requires
        size_words(rows, m) == size_words(other_rows, n),
        size_words(samples, m) == size_words(other_samples, n),
    ensures
        measured(rows, samples, m, min_width, model) == measured(
            other_rows,
            other_samples,
            n,
            min_width,
            model,
        ),
{
    words_say_exactly_what_is_measured(rows, m, other_rows, n);
    words_say_exactly_what_is_measured(samples, m, other_samples, n);
    let a = rows + samples;
    let b = other_rows + other_samples;
    assert forall|i: int| 0 <= i < a.len() implies sized(#[trigger] a[i]) == sized(b[i]) by {
        if i < rows.len() {
            assert(sized(rows[i]) == sized(other_rows[i]));
        } else {
            assert(sized(samples[i - rows.len()]) == sized(other_samples[i - rows.len()]));
        }
    }
    same_sizes_need_alike(a, b, m, action_need(a, m, model), model);
    let half = half_need(a, m, model);
    let width = larger(width_need(a, m, model), min_width);
    same_sizes_stack_alike(rows, other_rows, m, text_width_in(width, half, m), model);
}

/// Everything a measurement is made of.
pub struct Window {
    pub rows: Seq<RowView>,
    pub samples: Seq<RowView>,
    pub metrics: Metrics,
    pub script: ScriptView,
    pub min_width: i32,
}

impl Window {
    /// The key it is remembered under.
    pub open spec fn key(self) -> SizeKeyView {
        size_key(self.rows, self.samples, self.metrics, self.script, self.min_width)
    }

    /// What measuring it gives, each script having its own font.
    pub open spec fn fresh(self, fonts: spec_fn(ScriptView) -> TextModel) -> Measured {
        measured(
            self.rows,
            self.samples,
            self.metrics,
            self.min_width as int,
            fonts(self.script),
        )
    }

    /// Whether it spells the same words as another.
    pub open spec fn spells_alike(self, other: Window) -> bool {
        &&& size_words(self.rows, self.metrics) == size_words(other.rows, other.metrics)
        &&& size_words(self.samples, self.metrics) == size_words(other.samples, other.metrics)
    }
}

/// Whether no two of some windows share a key, unless they spell the same
/// words. A hash can fail this, and nothing else can.
pub open spec fn told_apart(windows: Set<Window>) -> bool {
    forall|v: Window, w: Window|
        windows.contains(v) && windows.contains(w) && #[trigger] v.key() == #[trigger] w.key()
            ==> v.spells_alike(w)
}

/// Whether every slot of a cache holds what measuring gives, for each of some
/// windows that has its key.
pub open spec fn is_truthful(
    slots: Seq<(SizeKeyView, Measured)>,
    windows: Set<Window>,
    fonts: spec_fn(ScriptView) -> TextModel,
) -> bool {
    forall|i: int, w: Window|
        0 <= i < slots.len() && windows.contains(w) && (#[trigger] slots[i]).0
            == #[trigger] w.key() ==> slots[i].1 == w.fresh(fonts)
}

/// A remembered size is the size measuring again would give, whatever was
/// measured before it: a cache that starts empty and is only filled by
/// measuring answers every window as a fresh measurement would, and stays that
/// way. Of the windows that are asked for, no two that spell different words
/// may share a key.
pub proof fn a_cache_answers_as_a_fresh_measurement(
    before: Seq<(SizeKeyView, Measured)>,
    after: Seq<(SizeKeyView, Measured)>,
    w: Window,
    size: Measured,
    windows: Set<Window>,
    fonts: spec_fn(ScriptView) -> TextModel,
)
    requires
        told_apart(windows),
        windows.contains(w),
        is_truthful(before, windows, fonts),
        remembered(before, after, w.key(), size, w.fresh(fonts)),
    ensures
        size == w.fresh(fonts),
        is_truthful(after, windows, fonts),
        is_truthful(seq![], windows, fonts),
{
    a_found_slot_holds_its_key(before, w.key());
    match slot_of(before, w.key()) {
        Some(at) => {
            assert(before[at].0 == w.key());
            assert forall|i: int, v: Window|
                0 <= i < after.len() && windows.contains(v) && (#[trigger] after[i]).0
                    == #[trigger] v.key() implies after[i].1 == v.fresh(fonts) by {
                let from = if i == 0 {
                    at
                } else if i <= at {
                    i - 1
                } else {
                    i
                };
                assert(after[i] == before[from]);
            }
        },
        None => {
            assert forall|i: int, v: Window|
                0 <= i < after.len() && windows.contains(v) && (#[trigger] after[i]).0
                    == #[trigger] v.key() implies after[i].1 == v.fresh(fonts) by {
                if i == 0 {
                    assert(v.key() == w.key());
                    equal_words_measure_alike(
                        v.rows,
                        v.samples,
                        v.metrics,
                        w.rows,
                        w.samples,
                        w.metrics,
                        v.min_width as int,
                        fonts(v.script),
                    );
                } else {
                    assert(after[i] == before[i - 1]);
                }
            }
        },
    }
}

/// Colours, ids, tick states, highlights, open flags, scroll offsets, carets
/// and the text of a notice do not reach the words: a row and the same row with
/// all of them blanked out spell alike.
pub proof fn what_is_not_measured_is_not_spelled(row: RowView)
    ensures
        row_words(sized(row)) == row_words(row),
        sized(sized(row)) == sized(row),
{
}

/// A key tells rows apart as their fingerprints do, and samples as theirs do;
/// it carries the script and the minimum width as they are.
pub proof fn a_key_depends_on_all_of_its_parts(
    rows: Seq<RowView>,
    others: Seq<RowView>,
    samples: Seq<RowView>,
    m: Metrics,
    script: ScriptView,
    min_width: i32,
)
    ensures
        size_key(rows, samples, m, script, min_width).script == script,
        size_key(rows, samples, m, script, min_width).min_width == min_width,
        size_key(rows, samples, m, script, min_width).text == size_key(
            others,
            samples,
            m,
            script,
            min_width,
        ).text <==> hash_of(size_words(rows, m)) == hash_of(size_words(others, m)),
        size_key(samples, rows, m, script, min_width).text == size_key(
            samples,
            others,
            m,
            script,
            min_width,
        ).text <==> hash_of(size_words(rows, m)) == hash_of(size_words(others, m)),
{
    let a = hash_of(size_words(rows, m));
    let b = hash_of(size_words(others, m));
    let s = hash_of(size_words(samples, m));
    let t = turned(s);
    assert(a ^ t == b ^ t <==> a == b) by (bit_vector);
    assert(s ^ ((a << 1) | (a >> 63)) == s ^ ((b << 1) | (b >> 63)) <==> a == b) by (bit_vector);
}

/// Rows drawn over samples that read the same do not cancel out in the key,
/// short of the two fingerprints that are the same bit throughout.
pub proof fn equal_rows_and_samples_do_not_cancel(
    rows: Seq<RowView>,
    m: Metrics,
    script: ScriptView,
    min_width: i32,
)
    ensures
        size_key(rows, rows, m, script, min_width).text == 0 <==> (hash_of(size_words(rows, m))
            == 0 || hash_of(size_words(rows, m)) == u64::MAX),
{
    let h = hash_of(size_words(rows, m));
    assert(h ^ ((h << 1) | (h >> 63)) == 0 <==> (h == 0 || h == 0xFFFF_FFFF_FFFF_FFFF))
        by (bit_vector);
}

/// What is hashed is every word, in order, eight bytes to each.
pub proof fn every_word_is_hashed(words: Seq<u64>, i: int)
    requires
        0 <= i < words.len(),
    ensures
        hash_of(words) == DefaultHasher::spec_finish(written(words)),
        written(words).len() == words.len(),
        written(words)[i] == spec_u64_to_le_bytes(words[i]),
{
}

} // verus!
