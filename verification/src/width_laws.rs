//! Why the panel keeps its width whatever the device reports.

use crate::arith::larger;
use crate::color::Color;
use crate::hid::{Beeper, BeeperView, Reading};
use crate::lang::Locale;
use crate::layout::{
    action_need, action_width_bounds_each, action_width_of_both, fitted_width,
    half_need, label_need, labels_need, single_need, singles_need, value_need, values_need, widest,
    widest_bounds_each, widest_is_not_negative, widest_of_both, width_need,
};
use crate::panel::{
    absent_rows, battery_rows, beeper_row, beeper_samples, charge_state_of, charge_tone, count_of,
    dash, device_rows, fault_rows, fault_samples, input_rows, load_tone, minutes_of, named,
    number_samples, output_rows, panel_rows, power_state_of, probe, range_text, reading_rows,
    repeated, sample_rows, self_test_row, status_rows, tenths_of, tenths_text, test_samples,
    title_rows, unit_samples, value_row, value_sample, warning_rows, volts_of, whole_text,
    word_samples, PanelView, EM_DASH, EN_DASH,
};
use crate::panel_laws::{
    all_of_both, all_of_the_faults, all_of_the_reading, all_rows, the_device_parts,
    the_nameless_parts,
};
use crate::row::RowView;
use crate::strings::Key;
use crate::strs::{all_digits, decimal, decimal_is_digits, digit_char, is_digit, spaced_text};
use crate::text::TextModel;
use crate::theme::{Colors, Metrics};
use vstd::prelude::*;

verus! {

/// The width of a line whose characters each take their own width.
pub open spec fn span(text: Seq<char>, glyph: spec_fn(char) -> int) -> int
    decreases text.len(),
{
    if text.len() == 0 {
        0
    } else {
        span(text.drop_last(), glyph) + glyph(text.last())
    }
}

/// Whether a font sets a line character by character: every character has a
/// width of its own, and a line is as wide as its characters together.
pub open spec fn sets_by_character(model: TextModel, glyph: spec_fn(char) -> int) -> bool {
    &&& forall|ch: char| #[trigger] glyph(ch) >= 0
    &&& forall|text: Seq<char>| #[trigger] (model.line)(text, false) == span(text, glyph)
}

/// Lines add up.
pub proof fn spans_add_up(a: Seq<char>, b: Seq<char>, glyph: spec_fn(char) -> int)
    ensures
        span(a + b, glyph) == span(a, glyph) + span(b, glyph),
    decreases b.len(),
{
    if b.len() == 0 {
        assert(a + b =~= a);
    } else {
        assert((a + b).drop_last() =~= a + b.drop_last());
        spans_add_up(a, b.drop_last(), glyph);
    }
}

proof fn a_span_is_not_negative(text: Seq<char>, glyph: spec_fn(char) -> int)
    requires
        forall|ch: char| #[trigger] glyph(ch) >= 0,
    ensures
        span(text, glyph) >= 0,
    decreases text.len(),
{
    if text.len() > 0 {
        a_span_is_not_negative(text.drop_last(), glyph);
    }
}

proof fn one_character_spans_itself(ch: char, glyph: spec_fn(char) -> int)
    ensures
        span(seq![ch], glyph) == glyph(ch),
{
    let one = seq![ch];
    assert(one.drop_last() =~= Seq::<char>::empty());
    assert(span(one.drop_last(), glyph) == 0);
}

/// A number and its unit is as wide as the number, the space and the unit.
proof fn a_spaced_span(first: Seq<char>, second: Seq<char>, glyph: spec_fn(char) -> int)
    ensures
        span(spaced_text(first, second), glyph) == span(first, glyph) + glyph(' ') + span(
            second,
            glyph,
        ),
{
    one_character_spans_itself(' ', glyph);
    spans_add_up(first, seq![' '], glyph);
    spans_add_up(first + seq![' '], second, glyph);
}

/// Whether no digit is wider than this one.
pub open spec fn is_widest_digit(d: int, glyph: spec_fn(char) -> int) -> bool {
    &&& 0 <= d < 10
    &&& forall|k: int| 0 <= k < 10 ==> glyph(#[trigger] digit_char(k as nat)) <= glyph(digit_char(d as nat))
}

proof fn some_digit_is_widest(glyph: spec_fn(char) -> int, n: int) -> (d: int)
    requires
        1 <= n <= 10,
    ensures
        0 <= d < n,
        forall|k: int| 0 <= k < n ==> glyph(#[trigger] digit_char(k as nat)) <= glyph(
            digit_char(d as nat),
        ),
    decreases n,
{
    if n == 1 {
        0
    } else {
        let best = some_digit_is_widest(glyph, n - 1);
        if glyph(digit_char((n - 1) as nat)) > glyph(digit_char(best as nat)) {
            n - 1
        } else {
            best
        }
    }
}

proof fn a_digit_is_at_most_the_widest(ch: char, d: int, glyph: spec_fn(char) -> int)
    requires
        is_digit(ch),
        is_widest_digit(d, glyph),
    ensures
        glyph(ch) <= glyph(digit_char(d as nat)),
{
    let k = ch as int - '0' as int;
    assert(digit_char(k as nat) == ch);
}

/// A run of at most so many digits is no wider than that many of the widest.
proof fn digits_span_at_most(text: Seq<char>, n: int, d: int, glyph: spec_fn(char) -> int)
    requires
        all_digits(text),
        text.len() <= n,
        is_widest_digit(d, glyph),
        forall|ch: char| #[trigger] glyph(ch) >= 0,
    ensures
        span(text, glyph) <= n * glyph(digit_char(d as nat)),
    decreases text.len(),
{
    let most = glyph(digit_char(d as nat));
    if text.len() == 0 {
        assert(n * most >= 0) by (nonlinear_arith)
            requires
                n >= 0,
                most >= 0,
        ;
    } else {
        let front = text.drop_last();
        assert forall|i: int| 0 <= i < front.len() implies is_digit(#[trigger] front[i]) by {
            assert(is_digit(text[i]));
        }
        digits_span_at_most(front, n - 1, d, glyph);
        assert(is_digit(text[text.len() - 1]));
        a_digit_is_at_most_the_widest(text.last(), d, glyph);
        assert(n * most == (n - 1) * most + most) by (nonlinear_arith);
    }
}

proof fn a_repeated_span(d: int, glyph: spec_fn(char) -> int)
    ensures
        span(repeated(d), glyph) == 4 * glyph(digit_char(d as nat)),
{
    let ch = digit_char(d as nat);
    one_character_spans_itself(ch, glyph);
    spans_add_up(seq![ch], seq![ch], glyph);
    spans_add_up(seq![ch] + seq![ch], seq![ch], glyph);
    spans_add_up(seq![ch] + seq![ch] + seq![ch], seq![ch], glyph);
    assert(repeated(d) =~= seq![ch] + seq![ch] + seq![ch] + seq![ch]);
}

/// A number up to 9999 has at most four digits, one up to 999 at most three.
proof fn small_numbers_are_short(n: nat)
    requires
        n <= 9999,
    ensures
        decimal(n).len() <= 4,
        n <= 999 ==> decimal(n).len() <= 3,
{
    reveal_with_fuel(decimal, 5);
    assert(n / 10 <= 999);
    assert(n / 10 / 10 <= 99);
    assert(n / 10 / 10 / 10 <= 9);
}

/// The largest need of some rows is no more than what bounds each of them.
proof fn widest_is_at_most(rows: Seq<RowView>, need: spec_fn(RowView) -> int, bound: int)
    requires
        bound >= 0,
        forall|i: int| 0 <= i < rows.len() ==> need(#[trigger] rows[i]) <= bound,
    ensures
        widest(rows, need) <= bound,
    decreases rows.len(),
{
    if rows.len() > 0 {
        let front = rows.drop_last();
        assert forall|i: int| 0 <= i < front.len() implies need(#[trigger] front[i]) <= bound by {
            assert(need(rows[i]) <= bound);
        }
        widest_is_at_most(front, need, bound);
        assert(need(rows[rows.len() - 1]) <= bound);
    }
}

/// Rows with the same needs have the same largest need.
proof fn equal_needs_are_equally_wide(
    a: Seq<RowView>,
    b: Seq<RowView>,
    need: spec_fn(RowView) -> int,
)
    requires
        a.len() == b.len(),
        forall|i: int| 0 <= i < a.len() ==> need(#[trigger] a[i]) == need(b[i]),
    ensures
        widest(a, need) == widest(b, need),
    decreases a.len(),
{
    if a.len() > 0 {
        let i = a.len() - 1;
        assert(need(a[i]) == need(b[i]));
        assert forall|j: int| 0 <= j < i implies need(#[trigger] a.drop_last()[j]) == need(
            b.drop_last()[j],
        ) by {
            assert(need(a[j]) == need(b[j]));
        }
        equal_needs_are_equally_wide(a.drop_last(), b.drop_last(), need);
    }
}

/// Every group of samples counts toward the width of all of them.
proof fn every_sample_group_counts(l: Locale, c: Colors, need: spec_fn(RowView) -> int)
    ensures
        widest(unit_samples(l.text(Key::UnitVolt), c), need) <= widest(sample_rows(l, c), need),
        widest(unit_samples(l.text(Key::UnitWatt), c), need) <= widest(sample_rows(l, c), need),
        widest(unit_samples(l.text(Key::UnitVoltAmp), c), need) <= widest(sample_rows(l, c), need),
        widest(unit_samples(l.text(Key::UnitPercent), c), need) <= widest(sample_rows(l, c), need),
        widest(unit_samples(l.text(Key::UnitMinutes), c), need) <= widest(sample_rows(l, c), need),
        widest(word_samples(l, c), need) <= widest(sample_rows(l, c), need),
        widest(beeper_samples(l, c), need) <= widest(sample_rows(l, c), need),
        widest(test_samples(l, c), need) <= widest(sample_rows(l, c), need),
        widest(sample_rows(l, c), need) >= 0,
{
    let v = unit_samples(l.text(Key::UnitVolt), c);
    let w = unit_samples(l.text(Key::UnitWatt), c);
    let a = unit_samples(l.text(Key::UnitVoltAmp), c);
    let p = unit_samples(l.text(Key::UnitPercent), c);
    let n = unit_samples(l.text(Key::UnitMinutes), c);
    widest_of_both(v, w, need);
    widest_of_both(v + w, a, need);
    widest_of_both(v + w + a, p, need);
    widest_of_both(v + w + a + p, n, need);
    let numbers = number_samples(l, c);
    let words = word_samples(l, c);
    let modes = beeper_samples(l, c);
    let tests = test_samples(l, c);
    let faults = fault_samples(l, c);
    widest_of_both(numbers, words, need);
    widest_of_both(numbers + words, modes, need);
    widest_of_both(numbers + words + modes, tests, need);
    widest_of_both(numbers + words + modes + tests, faults, need);
    widest_is_not_negative(sample_rows(l, c), need);
}

/// Whether a text is a number of at most four digits.
pub open spec fn is_count(text: Seq<char>) -> bool {
    exists|n: nat| n <= 9999 && text == #[trigger] decimal(n)
}

/// Whether a text is a range of two numbers of at most four digits.
pub open spec fn is_range(text: Seq<char>) -> bool {
    exists|n: nat, k: nat|
        n <= 9999 && k <= 9999 && text == #[trigger] decimal(n) + seq![EN_DASH]
            + #[trigger] decimal(k)
}

/// Whether a text is a number of at most four digits, the last of them behind a
/// full stop.
pub open spec fn is_tenths(text: Seq<char>) -> bool {
    exists|n: nat|
        n <= 9999 && text == #[trigger] decimal(n / 10) + seq!['.', digit_char(n % 10)]
}

/// The samples of one unit hold every number of four digits with that unit, and
/// every range of two such numbers.
proof fn the_unit_samples_hold(
    unit: Seq<char>,
    c: Colors,
    need: spec_fn(RowView) -> int,
    glyph: spec_fn(char) -> int,
    first: Seq<char>,
)
    requires
        forall|ch: char| #[trigger] glyph(ch) >= 0,
        forall|text: Seq<char>| need(#[trigger] value_sample(text, c)) == span(text, glyph),
        is_count(first) || is_range(first) || is_tenths(first),
        glyph('.') <= glyph('0'),
    ensures
        span(spaced_text(first, unit), glyph) <= widest(unit_samples(unit, c), need),
{
    let d = some_digit_is_widest(glyph, 10);
    let most = glyph(digit_char(d as nat));
    let rows = unit_samples(unit, c);
    let alone = spaced_text(repeated(d), unit);
    let ranged = range_text(repeated(d), repeated(d), unit);
    assert((2 * d) % 2 == 0 && (2 * d) / 2 == d && (2 * d + 1) % 2 == 1 && (2 * d + 1) / 2 == d);
    assert(rows[2 * d] == value_sample(alone, c));
    assert(rows[2 * d + 1] == value_sample(ranged, c));
    widest_bounds_each(rows, 2 * d, need);
    widest_bounds_each(rows, 2 * d + 1, need);
    a_repeated_span(d, glyph);
    a_spaced_span(repeated(d), unit, glyph);
    one_character_spans_itself(EN_DASH, glyph);
    spans_add_up(repeated(d), seq![EN_DASH], glyph);
    spans_add_up(repeated(d) + seq![EN_DASH], repeated(d), glyph);
    a_spaced_span(repeated(d) + seq![EN_DASH] + repeated(d), unit, glyph);
    a_spaced_span(first, unit, glyph);
    assert(span(ranged, glyph) == 8 * most + glyph(EN_DASH) + glyph(' ') + span(unit, glyph));
    assert(digit_char(0) == '0');
    assert(glyph(digit_char(0int as nat)) <= most);
    if is_count(first) {
        let n = choose|n: nat| n <= 9999 && first == #[trigger] decimal(n);
        decimal_is_digits(n);
        small_numbers_are_short(n);
        digits_span_at_most(decimal(n), 4, d, glyph);
    } else if is_range(first) {
        let (n, k) = choose|n: nat, k: nat|
            n <= 9999 && k <= 9999 && first == #[trigger] decimal(n) + seq![EN_DASH]
                + #[trigger] decimal(k);
        decimal_is_digits(n);
        decimal_is_digits(k);
        small_numbers_are_short(n);
        small_numbers_are_short(k);
        digits_span_at_most(decimal(n), 4, d, glyph);
        digits_span_at_most(decimal(k), 4, d, glyph);
        spans_add_up(decimal(n), seq![EN_DASH], glyph);
        spans_add_up(decimal(n) + seq![EN_DASH], decimal(k), glyph);
    } else {
        let n = choose|n: nat|
            n <= 9999 && first == #[trigger] decimal(n / 10) + seq!['.', digit_char(n % 10)];
        let last = digit_char(n % 10);
        decimal_is_digits(n / 10);
        small_numbers_are_short(n / 10);
        digits_span_at_most(decimal(n / 10), 3, d, glyph);
        assert(is_digit(last));
        a_digit_is_at_most_the_widest(last, d, glyph);
        one_character_spans_itself('.', glyph);
        one_character_spans_itself(last, glyph);
        spans_add_up(seq!['.'], seq![last], glyph);
        assert(seq!['.'] + seq![last] =~= seq!['.', last]);
        spans_add_up(decimal(n / 10), seq!['.', last], glyph);
        assert(glyph(EN_DASH) >= 0);
    }
}

/// Whether a number, if it was read, has at most four digits.
pub open spec fn short(n: Option<u32>) -> bool {
    n matches Some(v) ==> v <= 9999
}

/// Whether a voltage, if it was read, is not below zero and has at most four
/// digits.
pub open spec fn short_volts(n: Option<i32>) -> bool {
    n matches Some(v) ==> 0 <= v <= 9999
}

/// Whether every number of a reading has at most four digits as it is drawn;
/// times are drawn in minutes. The nameplate is not a reading that changes and
/// has no bound.
pub open spec fn drawn_in_four_digits(r: Reading) -> bool {
    &&& short_volts(r.input_voltage)
    &&& short_volts(r.input_nominal_voltage)
    &&& short_volts(r.low_transfer_voltage)
    &&& short_volts(r.high_transfer_voltage)
    &&& short_volts(r.output_voltage)
    &&& short(r.load_percent)
    &&& short(r.load_watts)
    &&& short(r.load_va)
    &&& short(r.charge_percent)
    &&& short_volts(r.battery_decivolts)
    &&& short_volts(r.battery_nominal_decivolts)
    &&& short(r.capacity_limit_percent)
    &&& short(r.warning_capacity_percent)
    &&& r.runtime_seconds matches Some(v) ==> v <= 599999
    &&& r.runtime_limit_seconds matches Some(v) ==> v <= 599999
}

/// Whether a buzzer mode is one the samples stand for.
pub open spec fn is_sampled_mode(mode: Beeper) -> bool {
    &&& mode.name is BeeperDisabled || mode.name is BeeperEnabled || mode.name is BeeperMuted
        || mode.name is BeeperUnsupported
    &&& mode.action matches Some(action) ==> action is BeeperEnable || action is BeeperDisable
}

/// Whether what is known of the buzzer is something the samples stand for.
pub open spec fn is_sampled(beeper: BeeperView) -> bool {
    match beeper {
        BeeperView::Unknown => true,
        BeeperView::Current(mode) => is_sampled_mode(mode),
        BeeperView::Stale(mode) => is_sampled_mode(mode),
    }
}

/// Whether a font suits the panel in a language: it sets lines by character, a
/// full stop is no wider than a zero, and a dash no wider than the words for a
/// passed test.
pub open spec fn suits(model: TextModel, glyph: spec_fn(char) -> int, l: Locale) -> bool {
    &&& sets_by_character(model, glyph)
    &&& glyph('.') <= glyph('0')
    &&& glyph(EM_DASH) <= span(l.text(Key::TestTestPassed), glyph)
}

/// Whether a row asks no more of the value column than the samples do.
pub open spec fn is_held(row: RowView, l: Locale, c: Colors, m: Metrics, model: TextModel) -> bool {
    let action = action_need(sample_rows(l, c), m, model);
    value_need(row, m, action, model) <= values_need(sample_rows(l, c), m, action, model)
}

/// A dash is held, alone and beside a button.
proof fn a_dash_is_held(
    l: Locale,
    c: Colors,
    m: Metrics,
    model: TextModel,
    glyph: spec_fn(char) -> int,
)
    requires
        suits(model, glyph, l),
        m.spacing >= 0,
        m.button_min_width >= 0,
    ensures
        ({
            let action = action_need(sample_rows(l, c), m, model);
            &&& action >= 0
            &&& (model.line)(dash(), false) + m.spacing + action <= values_need(
                sample_rows(l, c),
                m,
                action,
                model,
            )
        }),
{
    let samples = sample_rows(l, c);
    let action = action_need(samples, m, model);
    let need = |row: RowView| value_need(row, m, action, model);
    action_width_of_both(
        samples,
        Seq::empty(),
        m.button_min_width as int,
        m.spacing as int,
        model,
    );
    every_sample_group_counts(l, c, need);
    let tests = test_samples(l, c);
    widest_bounds_each(tests, 0, need);
    one_character_spans_itself(EM_DASH, glyph);
}

/// A value row over a number of four digits is held.
proof fn a_number_is_held(
    label: Seq<char>,
    unit_key: Key,
    first: Option<Seq<char>>,
    color: Color,
    l: Locale,
    c: Colors,
    m: Metrics,
    model: TextModel,
    glyph: spec_fn(char) -> int,
)
    requires
        suits(model, glyph, l),
        m.spacing >= 0,
        m.button_min_width >= 0,
        unit_key is UnitVolt || unit_key is UnitWatt || unit_key is UnitVoltAmp
            || unit_key is UnitPercent || unit_key is UnitMinutes,
        first matches Some(text) ==> is_count(text) || is_range(text) || is_tenths(text),
    ensures
        is_held(
            value_row(
                label,
                match first {
                    Some(text) => Some(spaced_text(text, l.text(unit_key))),
                    None => None,
                },
                color,
                c,
            ),
            l,
            c,
            m,
            model,
        ),
{
    let action = action_need(sample_rows(l, c), m, model);
    let need = |row: RowView| value_need(row, m, action, model);
    a_dash_is_held(l, c, m, model, glyph);
    every_sample_group_counts(l, c, need);
    if first is Some {
        the_unit_samples_hold(l.text(unit_key), c, need, glyph, first->0);
    }
}

/// A count and a time of at most four digits are held.
proof fn a_reading_value_is_held(
    label: Seq<char>,
    unit_key: Key,
    n: Option<u32>,
    color: Color,
    l: Locale,
    c: Colors,
    m: Metrics,
    model: TextModel,
    glyph: spec_fn(char) -> int,
)
    requires
        suits(model, glyph, l),
        m.spacing >= 0,
        m.button_min_width >= 0,
        unit_key is UnitVolt || unit_key is UnitWatt || unit_key is UnitVoltAmp
            || unit_key is UnitPercent || unit_key is UnitMinutes,
    ensures
        short(n) ==> is_held(
            value_row(label, count_of(n, l.text(unit_key)), color, c),
            l,
            c,
            m,
            model,
        ),
        (n matches Some(v) ==> v <= 599999) ==> is_held(
            value_row(label, minutes_of(n, l.text(unit_key)), color, c),
            l,
            c,
            m,
            model,
        ),
{
    match n {
        Some(v) => {
            let v = v as nat;
            if v <= 9999 {
                assert(is_count(decimal(v)));
                a_number_is_held(label, unit_key, Some(decimal(v)), color, l, c, m, model, glyph);
            }
            if v <= 599999 {
                assert(v / 60 <= 9999);
                assert(is_count(decimal(v / 60)));
                a_number_is_held(
                    label,
                    unit_key,
                    Some(decimal(v / 60)),
                    color,
                    l,
                    c,
                    m,
                    model,
                    glyph,
                );
            }
        },
        None => {
            a_number_is_held(label, unit_key, None, color, l, c, m, model, glyph);
        },
    }
}

/// A voltage of at most four digits is held, in whole volts and in tenths.
proof fn a_voltage_is_held(
    label: Seq<char>,
    n: Option<i32>,
    color: Color,
    l: Locale,
    c: Colors,
    m: Metrics,
    model: TextModel,
    glyph: spec_fn(char) -> int,
)
    requires
        suits(model, glyph, l),
        m.spacing >= 0,
        m.button_min_width >= 0,
        short_volts(n),
    ensures
        is_held(value_row(label, volts_of(n, l.text(Key::UnitVolt)), color, c), l, c, m, model),
        is_held(value_row(label, tenths_of(n, l.text(Key::UnitVolt)), color, c), l, c, m, model),
{
    let unit = Key::UnitVolt;
    match n {
        Some(v) => {
            let bare = v as nat;
            let tenths = decimal(bare / 10) + seq!['.', digit_char(bare % 10)];
            assert(is_count(decimal(bare)));
            assert(is_tenths(tenths));
            assert(whole_text(v as int) =~= decimal(bare));
            assert(tenths_text(v as int) =~= tenths);
            a_number_is_held(label, unit, Some(decimal(bare)), color, l, c, m, model, glyph);
            a_number_is_held(label, unit, Some(tenths), color, l, c, m, model, glyph);
        },
        None => {
            a_number_is_held(label, unit, None, color, l, c, m, model, glyph);
        },
    }
}

/// Every word the panel uses for a state is held.
proof fn a_state_is_held(
    label: Seq<char>,
    r: Reading,
    probing: bool,
    color: Color,
    l: Locale,
    c: Colors,
    m: Metrics,
    model: TextModel,
    glyph: spec_fn(char) -> int,
)
    requires
        suits(model, glyph, l),
        m.spacing >= 0,
        m.button_min_width >= 0,
    ensures
        is_held(value_row(label, named(l, charge_state_of(r, probing)), color, c), l, c, m, model),
        is_held(value_row(label, named(l, power_state_of(r, probing)), color, c), l, c, m, model),
{
    let action = action_need(sample_rows(l, c), m, model);
    let need = |row: RowView| value_need(row, m, action, model);
    a_dash_is_held(l, c, m, model, glyph);
    every_sample_group_counts(l, c, need);
    let words = word_samples(l, c);
    widest_bounds_each(words, 0, need);
    widest_bounds_each(words, 1, need);
    widest_bounds_each(words, 3, need);
    widest_bounds_each(words, 4, need);
    widest_bounds_each(words, 5, need);
    widest_bounds_each(words, 6, need);
}

/// The buzzer row is held, whatever is known of the buzzer.
proof fn the_buzzer_is_held(
    beeper: BeeperView,
    running: bool,
    l: Locale,
    c: Colors,
    m: Metrics,
    model: TextModel,
    glyph: spec_fn(char) -> int,
)
    requires
        suits(model, glyph, l),
        m.spacing >= 0,
        m.button_min_width >= 0,
        is_sampled(beeper),
    ensures
        is_held(beeper_row(l, c, beeper, running), l, c, m, model),
{
    let action = action_need(sample_rows(l, c), m, model);
    let need = |row: RowView| value_need(row, m, action, model);
    a_dash_is_held(l, c, m, model, glyph);
    every_sample_group_counts(l, c, need);
    let modes = beeper_samples(l, c);
    widest_bounds_each(modes, 0, need);
    widest_bounds_each(modes, 2, need);
    widest_bounds_each(modes, 4, need);
    widest_bounds_each(modes, 6, need);
}

/// The last-test row is held, whatever the outcome.
proof fn the_last_test_is_held(
    r: Reading,
    data: PanelView,
    l: Locale,
    c: Colors,
    m: Metrics,
    model: TextModel,
    glyph: spec_fn(char) -> int,
)
    requires
        suits(model, glyph, l),
        m.spacing >= 0,
        m.button_min_width >= 0,
    ensures
        is_held(
            self_test_row(l, c, r, data.presence, data.probing, data.self_test_running),
            l,
            c,
            m,
            model,
        ),
{
    let action = action_need(sample_rows(l, c), m, model);
    let need = |row: RowView| value_need(row, m, action, model);
    a_dash_is_held(l, c, m, model, glyph);
    every_sample_group_counts(l, c, need);
    let tests = test_samples(l, c);
    widest_bounds_each(tests, 0, need);
    widest_bounds_each(tests, 1, need);
    widest_bounds_each(tests, 2, need);
    widest_bounds_each(tests, 3, need);
    widest_bounds_each(tests, 4, need);
    widest_bounds_each(tests, 5, need);
    widest_bounds_each(tests, 6, need);
    widest_bounds_each(tests, 7, need);
}

/// The four groups of measurements are held.
proof fn the_measurements_are_held(
    r: Reading,
    probing: bool,
    l: Locale,
    c: Colors,
    m: Metrics,
    model: TextModel,
    glyph: spec_fn(char) -> int,
)
    requires
        suits(model, glyph, l),
        m.spacing >= 0,
        m.button_min_width >= 0,
        drawn_in_four_digits(r),
    ensures
        all_rows(input_rows(l, c, r), |row: RowView| is_held(row, l, c, m, model)),
        all_rows(output_rows(l, c, r), |row: RowView| is_held(row, l, c, m, model)),
        all_rows(battery_rows(l, c, r, probing), |row: RowView| is_held(row, l, c, m, model)),
        all_rows(status_rows(l, c, r, probing), |row: RowView| is_held(row, l, c, m, model)),
{
    let p = |row: RowView| is_held(row, l, c, m, model);
    let action = action_need(sample_rows(l, c), m, model);
    let need = |row: RowView| value_need(row, m, action, model);
    widest_is_not_negative(sample_rows(l, c), need);
    let input = input_rows(l, c, r);
    let output = output_rows(l, c, r);
    let battery = battery_rows(l, c, r, probing);
    let status = status_rows(l, c, r, probing);
    assert(all_rows(input, p)) by {
        let a = c.text_primary;
        a_voltage_is_held(
            l.text(Key::PanelInputVoltage), r.input_voltage, a, l, c, m, model, glyph,
        );
        a_voltage_is_held(
            l.text(Key::PanelInputNominal), r.input_nominal_voltage, a, l, c, m, model, glyph,
        );
        let window = match (r.low_transfer_voltage, r.high_transfer_voltage) {
            (Some(low), Some(high)) => Some(
                decimal(low as nat) + seq![EN_DASH] + decimal(high as nat),
            ),
            _ => None,
        };
        if window is Some {
            let (low, high) = (r.low_transfer_voltage->0, r.high_transfer_voltage->0);
            assert(whole_text(low as int) =~= decimal(low as nat));
            assert(whole_text(high as int) =~= decimal(high as nat));
        }
        a_number_is_held(
            l.text(Key::PanelTransferWindow), Key::UnitVolt, window, a, l, c, m, model, glyph,
        );
        assert(p(input[0]) && p(input[1]) && p(input[2]) && p(input[3]));
    }
    assert(all_rows(output, p)) by {
        let a = c.text_primary;
        a_voltage_is_held(
            l.text(Key::PanelOutputVoltage), r.output_voltage, a, l, c, m, model, glyph,
        );
        a_reading_value_is_held(
            l.text(Key::PanelLoadPercent), Key::UnitPercent, r.load_percent,
            match r.load_percent {
                Some(v) => load_tone(v, c),
                None => a,
            },
            l, c, m, model, glyph,
        );
        a_reading_value_is_held(
            l.text(Key::PanelLoadWatts), Key::UnitWatt, r.load_watts, a, l, c, m, model, glyph,
        );
        a_reading_value_is_held(
            l.text(Key::PanelLoadVa), Key::UnitVoltAmp, r.load_va, a, l, c, m, model, glyph,
        );
        assert(p(output[0]) && p(output[1]) && p(output[2]) && p(output[3]) && p(output[4]));
    }
    assert(all_rows(battery, p)) by {
        let a = c.text_primary;
        let b = c.text_secondary;
        a_reading_value_is_held(
            l.text(Key::PanelCharge), Key::UnitPercent, r.charge_percent,
            match r.charge_percent {
                Some(v) => charge_tone(v, c),
                None => a,
            },
            l, c, m, model, glyph,
        );
        a_voltage_is_held(
            l.text(Key::PanelBatteryVoltage), r.battery_decivolts, a, l, c, m, model, glyph,
        );
        a_voltage_is_held(
            l.text(Key::PanelBatteryNominal), r.battery_nominal_decivolts, a, l, c, m, model, glyph,
        );
        a_reading_value_is_held(
            l.text(Key::PanelRuntime), Key::UnitMinutes, r.runtime_seconds, a, l, c, m, model,
            glyph,
        );
        a_state_is_held(l.text(Key::PanelChargeState), r, probing, a, l, c, m, model, glyph);
        a_reading_value_is_held(
            l.text(Key::PanelCapacityLimit), Key::UnitPercent, r.capacity_limit_percent, b, l, c, m,
            model, glyph,
        );
        a_reading_value_is_held(
            l.text(Key::PanelWarningCapacity), Key::UnitPercent, r.warning_capacity_percent, b, l,
            c, m, model, glyph,
        );
        a_reading_value_is_held(
            l.text(Key::PanelRuntimeLimit), Key::UnitMinutes, r.runtime_limit_seconds, b, l, c, m,
            model, glyph,
        );
        assert(p(battery[0]) && p(battery[1]) && p(battery[2]) && p(battery[3]) && p(battery[4])
            && p(battery[5]) && p(battery[6]) && p(battery[7]) && p(battery[8]));
    }
    assert(all_rows(status, p)) by {
        let color = match power_state_of(r, probing) {
            Some(Key::StateOnline) => c.ok,
            Some(_) => c.warning,
            None => c.text_primary,
        };
        a_state_is_held(l.text(Key::PanelState), r, probing, color, l, c, m, model, glyph);
        assert(p(status[0]) && p(status[1]));
    }
}

/// Held rows ask no more of the value column than the samples.
proof fn held_rows_stay_within(
    rows: Seq<RowView>,
    l: Locale,
    c: Colors,
    m: Metrics,
    model: TextModel,
)
    requires
        all_rows(rows, |row: RowView| is_held(row, l, c, m, model)),
    ensures
        ({
            let action = action_need(sample_rows(l, c), m, model);
            values_need(rows, m, action, model) <= values_need(sample_rows(l, c), m, action, model)
        }),
{
    let p = |row: RowView| is_held(row, l, c, m, model);
    let action = action_need(sample_rows(l, c), m, model);
    let need = |row: RowView| value_need(row, m, action, model);
    widest_is_not_negative(sample_rows(l, c), need);
    assert forall|i: int| 0 <= i < rows.len() implies need(#[trigger] rows[i]) <= widest(
        sample_rows(l, c),
        need,
    ) by {
        assert(p(rows[i]));
    }
    widest_is_at_most(rows, need, widest(sample_rows(l, c), need));
}

/// What the panel of a device that is not absent is drawn from: its data and
/// reading, or the stand-ins of the startup panel.
pub open spec fn drawn_from(data: PanelView) -> (PanelView, Reading) {
    if data.connecting() {
        (probe(), Reading::unread())
    } else {
        (data, data.reading->0)
    }
}

/// The rows of a panel whose texts are the device's own and do not change with
/// its readings: the identity, where there is one, and the nameplate.
pub open spec fn standing_rows(l: Locale, c: Colors, data: PanelView) -> Seq<RowView> {
    let (over, r) = drawn_from(data);
    let device = device_rows(l, c, over, r);
    if over.identity is Some {
        seq![device[1], device[2], device[3], device[4], device[5], device[7]]
    } else {
        seq![device[1]]
    }
}

/// Whether a panel is live and within what the samples stand for.
pub open spec fn is_expected(data: PanelView) -> bool {
    &&& data.presence is Open
    &&& data.reading is Some
    &&& drawn_in_four_digits(data.reading->0)
    &&& is_sampled(data.beeper)
}

/// The need of a panel of a device that is not absent is the largest of its
/// parts.
proof fn the_panel_in_parts(
    l: Locale,
    c: Colors,
    data: PanelView,
    need: spec_fn(RowView) -> int,
)
    requires
        !(data.presence is Absent),
        forall|row: RowView|
            (row is Wrapped || row is Notice || row is Space) ==> #[trigger] need(row) == 0,
    ensures
        ({
            let (over, r) = drawn_from(data);
            let parts = larger(
                larger(
                    larger(
                        larger(
                            larger(
                                widest(title_rows(l), need),
                                widest(input_rows(l, c, r), need),
                            ),
                            widest(output_rows(l, c, r), need),
                        ),
                        widest(battery_rows(l, c, r, over.probing), need),
                    ),
                    widest(status_rows(l, c, r, over.probing), need),
                ),
                widest(device_rows(l, c, over, r), need),
            );
            widest(panel_rows(l, c, data), need) == parts
        }),
{
    let (over, r) = drawn_from(data);
    let t = title_rows(l);
    let w = warning_rows(data.warnings, c);
    let a = input_rows(l, c, r);
    let b = output_rows(l, c, r);
    let d = battery_rows(l, c, r, over.probing);
    let e = status_rows(l, c, r, over.probing);
    let f = fault_rows(l, c, r);
    let g = device_rows(l, c, over, r);
    widest_of_both(a, b, need);
    widest_of_both(a + b, d, need);
    widest_of_both(a + b + d, e, need);
    widest_of_both(a + b + d + e, f, need);
    widest_of_both(a + b + d + e + f, g, need);
    widest_of_both(t, w, need);
    widest_of_both(t + w, reading_rows(l, c, over, r), need);
    let notice = |row: RowView| row is Notice;
    all_of_the_faults(l, c, r, notice);
    assert forall|i: int| 0 <= i < f.len() implies need(#[trigger] f[i]) <= 0 by {
        assert(notice(f[i]));
    }
    widest_is_at_most(f, need, 0);
    assert forall|i: int| 0 <= i < w.len() implies need(#[trigger] w[i]) <= 0 by {
        assert(w[i] is Wrapped || w[i] is Space);
    }
    widest_is_at_most(w, need, 0);
    widest_is_not_negative(f, need);
    widest_is_not_negative(w, need);
    widest_is_not_negative(t, need);
    widest_is_not_negative(a, need);
}

/// Whether the button of a row, if it has one, is no wider than `bound`.
pub open spec fn button_within(row: RowView, m: Metrics, model: TextModel, bound: int) -> bool {
    row matches RowView::LabeledButton { button, .. } ==> fitted_width(
        button,
        m.button_min_width as int,
        m.spacing as int,
        model,
    ) <= bound
}

/// The action width of some rows is no more than what bounds each button.
proof fn action_is_at_most(rows: Seq<RowView>, m: Metrics, model: TextModel, bound: int)
    requires
        bound >= m.button_min_width,
        all_rows(rows, |row: RowView| button_within(row, m, model, bound)),
    ensures
        action_need(rows, m, model) <= bound,
    decreases rows.len(),
{
    let p = |row: RowView| button_within(row, m, model, bound);
    if rows.len() > 0 {
        let front = rows.drop_last();
        assert forall|i: int| 0 <= i < front.len() implies p(#[trigger] front[i]) by {
            assert(p(rows[i]));
        }
        assert(p(rows[rows.len() - 1]));
        action_is_at_most(front, m, model, bound);
    }
}

/// The buttons of a reading are no wider than the samples make them.
#[verifier::spinoff_prover]
proof fn a_reading_keeps_its_buttons(
    l: Locale,
    c: Colors,
    data: PanelView,
    r: Reading,
    m: Metrics,
    model: TextModel,
)
    requires
        is_sampled(data.beeper),
    ensures
        ({
            let action = action_need(sample_rows(l, c), m, model);
            all_rows(
                reading_rows(l, c, data, r),
                |row: RowView| button_within(row, m, model, action),
            )
        }),
{
    let samples = sample_rows(l, c);
    let action = action_need(samples, m, model);
    let p = |row: RowView| button_within(row, m, model, action);
    let (btn_min, spacing) = (m.button_min_width as int, m.spacing as int);
    let device = device_rows(l, c, data, r);
    assert(all_rows(device, p)) by {
        assert(samples[108] == beeper_samples(l, c)[0]);
        assert(samples[109] == beeper_samples(l, c)[1]);
        assert(samples[116] == test_samples(l, c)[0]);
        action_width_bounds_each(samples, 108, btn_min, spacing, model);
        action_width_bounds_each(samples, 109, btn_min, spacing, model);
        action_width_bounds_each(samples, 116, btn_min, spacing, model);
        if data.identity is Some {
            the_device_parts(l, c, data, r);
        } else {
            the_nameless_parts(l, c, data, r);
        }
    }
    all_of_the_faults(l, c, r, p);
    all_of_the_reading(l, c, data, r, p);
}

/// The action buttons of every panel are as wide as the samples make them: no
/// reading, and nothing else that is known of the device, resizes a button.
pub proof fn no_reading_resizes_a_button(
    l: Locale,
    c: Colors,
    data: PanelView,
    m: Metrics,
    model: TextModel,
)
    requires
        data.presence is Open && data.reading is Some ==> is_sampled(data.beeper),
    ensures
        action_need(panel_rows(l, c, data) + sample_rows(l, c), m, model) == action_need(
            sample_rows(l, c),
            m,
            model,
        ),
{
    let samples = sample_rows(l, c);
    let rows = panel_rows(l, c, data);
    let action = action_need(samples, m, model);
    let p = |row: RowView| button_within(row, m, model, action);
    let w = warning_rows(data.warnings, c);
    action_width_of_both(rows, samples, m.button_min_width as int, m.spacing as int, model);
    all_of_both(title_rows(l), w, p);
    if data.presence is Absent {
        all_of_both(title_rows(l) + w, absent_rows(l, c), p);
    } else {
        let (over, r) = drawn_from(data);
        a_reading_keeps_its_buttons(l, c, over, r, m, model);
        all_of_both(title_rows(l) + w, reading_rows(l, c, over, r), p);
    }
    action_is_at_most(rows, m, model, action);
}

/// The device group asks of the value column what the device's own texts and
/// the samples ask, and no less than those texts.
proof fn the_device_column(
    l: Locale,
    c: Colors,
    data: PanelView,
    m: Metrics,
    model: TextModel,
    glyph: spec_fn(char) -> int,
)
    requires
        data.connecting() || is_expected(data),
        suits(model, glyph, l),
        m.spacing >= 0,
        m.button_min_width >= 0,
    ensures
        ({
            let (over, r) = drawn_from(data);
            let action = action_need(sample_rows(l, c), m, model);
            let device = values_need(device_rows(l, c, over, r), m, action, model);
            let standing = values_need(standing_rows(l, c, data), m, action, model);
            let samples = values_need(sample_rows(l, c), m, action, model);
            standing <= device <= larger(standing, samples)
        }),
{
    let (over, r) = drawn_from(data);
    let samples = sample_rows(l, c);
    let action = action_need(samples, m, model);
    let need = |row: RowView| value_need(row, m, action, model);
    let device = device_rows(l, c, over, r);
    let standing = standing_rows(l, c, data);
    let bound = larger(widest(standing, need), widest(samples, need));
    widest_is_not_negative(samples, need);
    widest_is_not_negative(device, need);
    the_buzzer_is_held(over.beeper, over.self_test_running, l, c, m, model, glyph);
    the_last_test_is_held(r, over, l, c, m, model, glyph);
    widest_bounds_each(standing, 0, need);
    widest_bounds_each(device, 1, need);
    if over.identity is Some {
        the_device_parts(l, c, over, r);
        widest_bounds_each(standing, 1, need);
        widest_bounds_each(standing, 2, need);
        widest_bounds_each(standing, 3, need);
        widest_bounds_each(standing, 4, need);
        widest_bounds_each(standing, 5, need);
        widest_bounds_each(device, 2, need);
        widest_bounds_each(device, 3, need);
        widest_bounds_each(device, 4, need);
        widest_bounds_each(device, 5, need);
        widest_bounds_each(device, 7, need);
        assert forall|i: int| 0 <= i < device.len() implies need(#[trigger] device[i]) <= bound by {
            assert(i == 0 || i == 1 || i == 2 || i == 3 || i == 4 || i == 5 || i == 6 || i == 7
                || i == 8);
        }
        assert forall|i: int| 0 <= i < standing.len() implies need(#[trigger] standing[i])
            <= widest(device, need) by {
            assert(i == 0 || i == 1 || i == 2 || i == 3 || i == 4 || i == 5);
        }
    } else {
        the_nameless_parts(l, c, over, r);
        assert forall|i: int| 0 <= i < device.len() implies need(#[trigger] device[i]) <= bound by {
            assert(i == 0 || i == 1 || i == 2 || i == 3);
        }
        assert forall|i: int| 0 <= i < standing.len() implies need(#[trigger] standing[i])
            <= widest(device, need) by {
            assert(i == 0);
        }
    }
    widest_is_at_most(device, need, bound);
    widest_is_at_most(standing, need, widest(device, need));
}

/// What a startup or an expected panel and the samples ask of the value column
/// together: what the device's own texts and the samples ask.
proof fn the_value_column(
    l: Locale,
    c: Colors,
    data: PanelView,
    m: Metrics,
    model: TextModel,
    glyph: spec_fn(char) -> int,
)
    requires
        data.connecting() || is_expected(data),
        suits(model, glyph, l),
        m.spacing >= 0,
        m.button_min_width >= 0,
    ensures
        ({
            let action = action_need(sample_rows(l, c), m, model);
            values_need(panel_rows(l, c, data) + sample_rows(l, c), m, action, model) == larger(
                values_need(standing_rows(l, c, data), m, action, model),
                values_need(sample_rows(l, c), m, action, model),
            )
        }),
{
    let (over, r) = drawn_from(data);
    let samples = sample_rows(l, c);
    let action = action_need(samples, m, model);
    let need = |row: RowView| value_need(row, m, action, model);
    widest_of_both(panel_rows(l, c, data), samples, need);
    the_panel_in_parts(l, c, data, need);
    the_measurements_are_held(r, over.probing, l, c, m, model, glyph);
    held_rows_stay_within(input_rows(l, c, r), l, c, m, model);
    held_rows_stay_within(output_rows(l, c, r), l, c, m, model);
    held_rows_stay_within(battery_rows(l, c, r, over.probing), l, c, m, model);
    held_rows_stay_within(status_rows(l, c, r, over.probing), l, c, m, model);
    widest_is_not_negative(samples, need);
    let title = title_rows(l);
    assert forall|i: int| 0 <= i < title.len() implies need(#[trigger] title[i]) <= 0 by {
        assert(title[i] is TitleButton || title[i] is Space);
    }
    widest_is_at_most(title, need, 0);
    the_device_column(l, c, data, m, model, glyph);
}

/// Whether two rows are the same header, or carry the same label.
pub open spec fn same_label(x: RowView, y: RowView) -> bool {
    match (x, y) {
        (RowView::Header(s), RowView::Header(t)) => s == t,
        (RowView::Pair { label: s, .. }, RowView::Pair { label: t, .. }) => s == t,
        (RowView::Pair { label: s, .. }, RowView::LabeledButton { label: t, .. }) => s == t,
        (RowView::LabeledButton { label: s, .. }, RowView::Pair { label: t, .. }) => s == t,
        (RowView::LabeledButton { label: s, .. }, RowView::LabeledButton { label: t, .. }) => s
            == t,
        _ => false,
    }
}

/// Whether two lists of rows carry the same labels row by row.
pub open spec fn same_labels(a: Seq<RowView>, b: Seq<RowView>) -> bool {
    &&& a.len() == b.len()
    &&& forall|i: int| 0 <= i < a.len() ==> same_label(#[trigger] a[i], b[i])
}

/// Whether a need looks at the labels of rows and at nothing else of them.
#[verifier::opaque]
pub open spec fn looks_at_labels(need: spec_fn(RowView) -> int) -> bool {
    forall|x: RowView, y: RowView| same_label(x, y) ==> #[trigger] need(x) == #[trigger] need(y)
}

/// The measurements of two readings carry the same labels.
proof fn measurements_share_their_labels(
    l: Locale,
    c: Colors,
    r: Reading,
    q: Reading,
    probing: bool,
    other: bool,
)
    ensures
        same_labels(input_rows(l, c, r), input_rows(l, c, q)),
        same_labels(output_rows(l, c, r), output_rows(l, c, q)),
        same_labels(battery_rows(l, c, r, probing), battery_rows(l, c, q, other)),
        same_labels(status_rows(l, c, r, probing), status_rows(l, c, q, other)),
{
}

/// The device groups of two devices, both with an identity or both without,
/// carry the same labels.
#[verifier::spinoff_prover]
proof fn devices_share_their_labels(
    l: Locale,
    c: Colors,
    a: PanelView,
    b: PanelView,
    r: Reading,
    q: Reading,
)
    requires
        a.identity is Some == b.identity is Some,
    ensures
        same_labels(device_rows(l, c, a, r), device_rows(l, c, b, q)),
{
    let (x, y) = (device_rows(l, c, a, r), device_rows(l, c, b, q));
    if a.identity is Some {
        the_device_parts(l, c, a, r);
        the_device_parts(l, c, b, q);
        assert forall|i: int| 0 <= i < x.len() implies same_label(#[trigger] x[i], y[i]) by {
            assert(i == 0 || i == 1 || i == 2 || i == 3 || i == 4 || i == 5 || i == 6 || i == 7
                || i == 8);
        }
    } else {
        the_nameless_parts(l, c, a, r);
        the_nameless_parts(l, c, b, q);
        assert forall|i: int| 0 <= i < x.len() implies same_label(#[trigger] x[i], y[i]) by {
            assert(i == 0 || i == 1 || i == 2 || i == 3);
        }
    }
}

proof fn same_labels_are_equally_wide(
    a: Seq<RowView>,
    b: Seq<RowView>,
    need: spec_fn(RowView) -> int,
)
    requires
        same_labels(a, b),
        looks_at_labels(need),
    ensures
        widest(a, need) == widest(b, need),
{
    reveal(looks_at_labels);
    assert forall|i: int| 0 <= i < a.len() implies need(#[trigger] a[i]) == need(b[i]) by {
        assert(same_label(a[i], b[i]));
    }
    equal_needs_are_equally_wide(a, b, need);
}

/// Panels whose rows differ only in their values and colours are equally wide
/// by any need that looks at neither.
#[verifier::spinoff_prover]
proof fn equally_wide_parts(
    l: Locale,
    c: Colors,
    a: PanelView,
    b: PanelView,
    need: spec_fn(RowView) -> int,
)
    requires
        !(a.presence is Absent),
        !(b.presence is Absent),
        drawn_from(a).0.identity is Some == drawn_from(b).0.identity is Some,
        forall|row: RowView|
            (row is Wrapped || row is Notice || row is Space) ==> #[trigger] need(row) == 0,
        looks_at_labels(need),
    ensures
        widest(panel_rows(l, c, a), need) == widest(panel_rows(l, c, b), need),
{
    let (x, r) = drawn_from(a);
    let (y, q) = drawn_from(b);
    the_panel_in_parts(l, c, a, need);
    the_panel_in_parts(l, c, b, need);
    measurements_share_their_labels(l, c, r, q, x.probing, y.probing);
    devices_share_their_labels(l, c, x, y, r, q);
    same_labels_are_equally_wide(input_rows(l, c, r), input_rows(l, c, q), need);
    same_labels_are_equally_wide(output_rows(l, c, r), output_rows(l, c, q), need);
    same_labels_are_equally_wide(
        battery_rows(l, c, r, x.probing),
        battery_rows(l, c, q, y.probing),
        need,
    );
    same_labels_are_equally_wide(
        status_rows(l, c, r, x.probing),
        status_rows(l, c, q, y.probing),
        need,
    );
    same_labels_are_equally_wide(device_rows(l, c, x, r), device_rows(l, c, y, q), need);
}

/// The labels, and the rows that span the window, of two panels are equally
/// wide where both show an identity or neither does.
proof fn the_other_columns(
    l: Locale,
    c: Colors,
    a: PanelView,
    b: PanelView,
    m: Metrics,
    model: TextModel,
)
    requires
        !(a.presence is Absent),
        !(b.presence is Absent),
        drawn_from(a).0.identity is Some == drawn_from(b).0.identity is Some,
    ensures
        labels_need(panel_rows(l, c, a), model) == labels_need(panel_rows(l, c, b), model),
        singles_need(panel_rows(l, c, a), m, model) == singles_need(
            panel_rows(l, c, b),
            m,
            model,
        ),
{
    let label = |row: RowView| label_need(row, model);
    let single = |row: RowView| single_need(row, m, model);
    assert(looks_at_labels(label) && looks_at_labels(single)) by {
        reveal(looks_at_labels);
    }
    equally_wide_parts(l, c, a, b, label);
    equally_wide_parts(l, c, a, b, single);
}

/// Panels that both show an identity or both show none, and whose own texts ask
/// the same of the value column, need the same columns and the same window.
proof fn equal_standing_is_equally_wide(
    l: Locale,
    c: Colors,
    a: PanelView,
    b: PanelView,
    m: Metrics,
    model: TextModel,
    glyph: spec_fn(char) -> int,
)
    requires
        a.connecting() || is_expected(a),
        b.connecting() || is_expected(b),
        drawn_from(a).0.identity is Some == drawn_from(b).0.identity is Some,
        ({
            let action = action_need(sample_rows(l, c), m, model);
            let samples = values_need(sample_rows(l, c), m, action, model);
            larger(values_need(standing_rows(l, c, a), m, action, model), samples) == larger(
                values_need(standing_rows(l, c, b), m, action, model),
                samples,
            )
        }),
        suits(model, glyph, l),
        m.spacing >= 0,
        m.button_min_width >= 0,
    ensures
        half_need(panel_rows(l, c, a) + sample_rows(l, c), m, model) == half_need(
            panel_rows(l, c, b) + sample_rows(l, c),
            m,
            model,
        ),
        width_need(panel_rows(l, c, a) + sample_rows(l, c), m, model) == width_need(
            panel_rows(l, c, b) + sample_rows(l, c),
            m,
            model,
        ),
{
    let samples = sample_rows(l, c);
    let (x, y) = (panel_rows(l, c, a), panel_rows(l, c, b));
    no_reading_resizes_a_button(l, c, a, m, model);
    no_reading_resizes_a_button(l, c, b, m, model);
    the_value_column(l, c, a, m, model, glyph);
    the_value_column(l, c, b, m, model, glyph);
    the_other_columns(l, c, a, b, m, model);
    widest_of_both(x, samples, |row: RowView| label_need(row, model));
    widest_of_both(y, samples, |row: RowView| label_need(row, model));
    widest_of_both(x, samples, |row: RowView| single_need(row, m, model));
    widest_of_both(y, samples, |row: RowView| single_need(row, m, model));
}

/// The window keeps its width while the device is open: two live panels of the
/// same device, with an identity or without one, need the same columns and the
/// same window, whatever they report, read or fail to read, and whatever is
/// raised, under way or warned of.
pub proof fn no_reading_changes_the_width(
    l: Locale,
    c: Colors,
    a: PanelView,
    b: PanelView,
    m: Metrics,
    model: TextModel,
    glyph: spec_fn(char) -> int,
)
    requires
        is_expected(a),
        is_expected(b),
        a.identity == b.identity,
        a.reading->0.nominal_va == b.reading->0.nominal_va,
        a.reading->0.nominal_power_w == b.reading->0.nominal_power_w,
        suits(model, glyph, l),
        m.spacing >= 0,
        m.button_min_width >= 0,
    ensures
        half_need(panel_rows(l, c, a) + sample_rows(l, c), m, model) == half_need(
            panel_rows(l, c, b) + sample_rows(l, c),
            m,
            model,
        ),
        width_need(panel_rows(l, c, a) + sample_rows(l, c), m, model) == width_need(
            panel_rows(l, c, b) + sample_rows(l, c),
            m,
            model,
        ),
{
    assert(standing_rows(l, c, a) =~= standing_rows(l, c, b));
    equal_standing_is_equally_wide(l, c, a, b, m, model, glyph);
}

/// The startup panel shows dashes where the device's own texts will be, and a
/// dash asks no more than the samples.
proof fn the_startup_texts_are_held(
    l: Locale,
    c: Colors,
    startup: PanelView,
    m: Metrics,
    model: TextModel,
    glyph: spec_fn(char) -> int,
)
    requires
        startup.connecting(),
        suits(model, glyph, l),
        m.spacing >= 0,
        m.button_min_width >= 0,
    ensures
        all_rows(standing_rows(l, c, startup), |row: RowView| is_held(row, l, c, m, model)),
{
    let p = |row: RowView| is_held(row, l, c, m, model);
    let standing = standing_rows(l, c, startup);
    a_dash_is_held(l, c, m, model, glyph);
    assert forall|i: int| 0 <= i < standing.len() implies p(#[trigger] standing[i]) by {
        assert(i == 0 || i == 1 || i == 2 || i == 3 || i == 4 || i == 5);
        assert(standing[i] matches RowView::Pair { value, .. } && value == dash());
    }
}

/// The window does not widen when the first reading lands: the startup panel
/// and the live panel of a device with an identity need the same columns and
/// the same window, wherever the identity and the nameplate ask no more of the
/// value column than the samples do.
pub proof fn the_skeleton_is_as_wide_as_the_panel(
    l: Locale,
    c: Colors,
    startup: PanelView,
    live: PanelView,
    m: Metrics,
    model: TextModel,
    glyph: spec_fn(char) -> int,
)
    requires
        startup.connecting(),
        is_expected(live),
        live.identity is Some,
        all_rows(standing_rows(l, c, live), |row: RowView| is_held(row, l, c, m, model)),
        suits(model, glyph, l),
        m.spacing >= 0,
        m.button_min_width >= 0,
    ensures
        half_need(panel_rows(l, c, startup) + sample_rows(l, c), m, model) == half_need(
            panel_rows(l, c, live) + sample_rows(l, c),
            m,
            model,
        ),
        width_need(panel_rows(l, c, startup) + sample_rows(l, c), m, model) == width_need(
            panel_rows(l, c, live) + sample_rows(l, c),
            m,
            model,
        ),
{
    the_startup_texts_are_held(l, c, startup, m, model, glyph);
    held_rows_stay_within(standing_rows(l, c, startup), l, c, m, model);
    held_rows_stay_within(standing_rows(l, c, live), l, c, m, model);
    equal_standing_is_equally_wide(l, c, startup, live, m, model, glyph);
}

} // verus!
