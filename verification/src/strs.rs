//! Text in the one form the interface reasons about it: a sequence of
//! characters, built, compared, trimmed and read as a number.

use vstd::prelude::*;
use vstd::string::*;

verus! {

/// `String::push` appends one character to the end of the text.
pub assume_specification[ String::push ](text: &mut String, ch: char)
    ensures
        final(text)@ == old(text)@.push(ch),
;

/// Whether a character has the Unicode property `White_Space`.
pub open spec fn white_space(ch: char) -> bool {
    let code = ch as u32;
    ||| 0x0009 <= code <= 0x000D
    ||| code == 0x0020
    ||| code == 0x0085
    ||| code == 0x00A0
    ||| code == 0x1680
    ||| 0x2000 <= code <= 0x200A
    ||| code == 0x2028
    ||| code == 0x2029
    ||| code == 0x202F
    ||| code == 0x205F
    ||| code == 0x3000
}

/// Whether a character has the Unicode property `White_Space`.
pub fn is_white_space(ch: char) -> (r: bool)
    ensures
        r == white_space(ch),
{
    let code: u32 = ch as u32;
    (0x0009 <= code && code <= 0x000D) || code == 0x0020 || code == 0x0085 || code == 0x00A0
        || code == 0x1680 || (0x2000 <= code && code <= 0x200A) || code == 0x2028 || code
        == 0x2029 || code == 0x202F || code == 0x205F || code == 0x3000
}

/// The digit of `d`, for `d` below ten.
pub open spec fn digit_char(d: nat) -> char {
    if d == 0 {
        '0'
    } else if d == 1 {
        '1'
    } else if d == 2 {
        '2'
    } else if d == 3 {
        '3'
    } else if d == 4 {
        '4'
    } else if d == 5 {
        '5'
    } else if d == 6 {
        '6'
    } else if d == 7 {
        '7'
    } else if d == 8 {
        '8'
    } else {
        '9'
    }
}

/// `n` in decimal, without leading zeros.
pub open spec fn decimal(n: nat) -> Seq<char>
    decreases n,
{
    if n < 10 {
        seq![digit_char(n)]
    } else {
        decimal(n / 10).push(digit_char(n % 10))
    }
}

/// A minus sign for a number below zero, and nothing for another.
pub open spec fn sign_of(n: int) -> Seq<char> {
    if n < 0 {
        seq!['-']
    } else {
        seq![]
    }
}

/// A number without its sign.
pub open spec fn magnitude(n: int) -> nat {
    if n < 0 {
        (-n) as nat
    } else {
        n as nat
    }
}

/// Whether `ch` is one of the ten decimal digits.
pub open spec fn is_digit(ch: char) -> bool {
    '0' <= ch && ch <= '9'
}

/// Whether every character of `text` is a decimal digit.
pub open spec fn all_digits(text: Seq<char>) -> bool {
    forall|i: int| 0 <= i < text.len() ==> is_digit(#[trigger] text[i])
}

/// The number a run of decimal digits spells.
pub open spec fn value_of(digits: Seq<char>) -> int
    decreases digits.len(),
{
    if digits.len() == 0 {
        0
    } else {
        value_of(digits.drop_last()) * 10 + (digits.last() as int - '0' as int)
    }
}

/// `n` in decimal.
pub fn decimal_text(n: u32) -> (text: String)
    ensures
        text@ == decimal(n as nat),
    decreases n,
{
    if n < 10 {
        let mut text = String::new();
        text.push(digit(n));
        proof {
            assert(text@ =~= decimal(n as nat));
        }
        text
    } else {
        let mut text = decimal_text(n / 10);
        text.push(digit(n % 10));
        text
    }
}

/// A minus sign for a number below zero, and nothing for another.
pub fn sign_text(n: i32) -> (text: String)
    ensures
        text@ == sign_of(n as int),
{
    let mut text = String::new();
    if n < 0 {
        text.push('-');
    }
    proof {
        assert(text@ =~= sign_of(n as int));
    }
    text
}

/// A number without its sign.
pub fn without_sign(n: i32) -> (r: u32)
    ensures
        r == magnitude(n as int),
{
    if n < 0 {
        (-(n as i64)) as u32
    } else {
        n as u32
    }
}

/// The digit of a number below ten.
pub fn digit(d: u32) -> (ch: char)
    requires
        d < 10,
    ensures
        ch == digit_char(d as nat),
{
    if d == 0 {
        '0'
    } else if d == 1 {
        '1'
    } else if d == 2 {
        '2'
    } else if d == 3 {
        '3'
    } else if d == 4 {
        '4'
    } else if d == 5 {
        '5'
    } else if d == 6 {
        '6'
    } else if d == 7 {
        '7'
    } else if d == 8 {
        '8'
    } else {
        '9'
    }
}

/// Whether two texts are the same characters in the same order.
pub fn same_text(a: &str, b: &str) -> (r: bool)
    ensures
        r == (a@ == b@),
{
    a.to_owned() == b.to_owned()
}

/// `first` and `second` with one space between them.
pub fn spaced(first: &str, second: &str) -> (text: String)
    ensures
        text@ == spaced_text(first@, second@),
{
    let mut text = first.to_owned();
    text.push(' ');
    text.append(second);
    proof {
        assert(text@ =~= spaced_text(first@, second@));
    }
    text
}

/// `first`, a space, and `second`.
pub open spec fn spaced_text(first: Seq<char>, second: Seq<char>) -> Seq<char> {
    first + seq![' '] + second
}

/// How many characters of `text` at its start are white space.
pub open spec fn leading_white(text: Seq<char>) -> nat
    decreases text.len(),
{
    if text.len() == 0 || !white_space(text[0]) {
        0
    } else {
        1 + leading_white(text.skip(1))
    }
}

/// How many characters of `text` at its end are white space.
pub open spec fn trailing_white(text: Seq<char>) -> nat
    decreases text.len(),
{
    if text.len() == 0 || !white_space(text.last()) {
        0
    } else {
        1 + trailing_white(text.drop_last())
    }
}

/// `text` without the white space at either end.
pub open spec fn trimmed(text: Seq<char>) -> Seq<char> {
    let front = text.skip(leading_white(text) as int);
    front.take(front.len() - trailing_white(front))
}

proof fn white_counts_are_bounded(text: Seq<char>)
    ensures
        leading_white(text) <= text.len(),
        trailing_white(text) <= text.len(),
    decreases text.len(),
{
    if text.len() > 0 {
        white_counts_are_bounded(text.skip(1));
        white_counts_are_bounded(text.drop_last());
    }
}

/// `text` without the white space at either end.
pub fn trim(text: &str) -> (r: String)
    ensures
        r@ == trimmed(text@),
{
    let n: usize = text.unicode_len();
    let mut start: usize = 0;
    proof {
        assert(text@.skip(0) =~= text@);
    }
    while start < n && is_white_space(text.get_char(start))
        invariant
            start <= n,
            n == text@.len(),
            leading_white(text@) == start + leading_white(text@.skip(start as int)),
        decreases n - start,
    {
        proof {
            assert(text@.skip(start as int).skip(1) =~= text@.skip(start + 1));
        }
        start = start + 1;
    }
    proof {
        white_counts_are_bounded(text@.skip(start as int));
    }
    let ghost front = text@.skip(start as int);
    let mut end: usize = n;
    proof {
        assert(front.take((end - start) as int) =~= front);
    }
    while end > start && is_white_space(text.get_char(end - 1))
        invariant
            start <= end <= n,
            n == text@.len(),
            front == text@.skip(start as int),
            trailing_white(front) == (n - end) + trailing_white(front.take((end - start) as int)),
        decreases end,
    {
        proof {
            let cut = front.take((end - start) as int);
            assert(cut.last() == text@[end - 1]);
            assert(cut.drop_last() =~= front.take((end - 1 - start) as int));
        }
        end = end - 1;
    }
    proof {
        let cut = front.take((end - start) as int);
        if end > start {
            assert(cut.last() == text@[end - 1]);
        }
        assert(text@.subrange(start as int, end as int) =~= trimmed(text@));
    }
    text.substring_char(start, end).to_owned()
}

/// `text` without the one `+` it may start with.
pub open spec fn without_plus(text: Seq<char>) -> Seq<char> {
    if text.len() > 0 && text[0] == '+' {
        text.skip(1)
    } else {
        text
    }
}

/// The `u32` that `text` spells: an optional `+`, then at least one decimal
/// digit and nothing else, for a value that fits.
pub open spec fn parsed_u32(text: Seq<char>) -> Option<u32> {
    let digits = without_plus(text);
    if digits.len() > 0 && all_digits(digits) && value_of(digits) <= u32::MAX {
        Some(value_of(digits) as u32)
    } else {
        None
    }
}

proof fn values_are_not_negative(digits: Seq<char>)
    requires
        all_digits(digits),
    ensures
        value_of(digits) >= 0,
    decreases digits.len(),
{
    if digits.len() > 0 {
        let front = digits.drop_last();
        assert forall|i: int| 0 <= i < front.len() implies is_digit(#[trigger] front[i]) by {
            assert(front[i] == digits[i]);
        }
        values_are_not_negative(front);
        assert(is_digit(digits[digits.len() - 1]));
    }
}

proof fn a_longer_run_is_worth_no_less(digits: Seq<char>, cut: int)
    requires
        all_digits(digits),
        0 <= cut <= digits.len(),
    ensures
        value_of(digits.take(cut)) <= value_of(digits),
    decreases digits.len() - cut,
{
    if cut == digits.len() {
        assert(digits.take(cut) =~= digits);
    } else {
        let shorter = digits.take(cut);
        let longer = digits.take(cut + 1);
        assert(longer.drop_last() =~= shorter);
        assert(is_digit(digits[cut]));
        assert(longer.last() == digits[cut]);
        values_are_not_negative(shorter);
        a_longer_run_is_worth_no_less(digits, cut + 1);
    }
}

/// The number `text` spells, if it spells one that fits.
pub fn parse_u32(text: &str) -> (r: Option<u32>)
    ensures
        r == parsed_u32(text@),
{
    let n: usize = text.unicode_len();
    let from: usize = if n > 0 && text.get_char(0) == '+' {
        1
    } else {
        0
    };
    let ghost digits = without_plus(text@);
    if from == n {
        return None;
    }
    let mut value: u32 = 0;
    let mut at: usize = from;
    while at < n
        invariant
            from <= at <= n,
            from < n,
            n == text@.len(),
            digits == without_plus(text@),
            digits.len() == n - from,
            from == 0 || from == 1,
            forall|i: int| 0 <= i < digits.len() ==> #[trigger] digits[i] == text@[i + from],
            forall|i: int| 0 <= i < at - from ==> is_digit(#[trigger] digits[i]),
            value == value_of(digits.take(at - from)),
        decreases n - at,
    {
        let ch: char = text.get_char(at);
        proof {
            assert(digits[at - from] == ch);
        }
        if ch < '0' || ch > '9' {
            proof {
                assert(!is_digit(digits[at - from]));
            }
            return None;
        }
        let d: u32 = ch as u32 - '0' as u32;
        let wide: u64 = value as u64 * 10 + d as u64;
        proof {
            let cut = digits.take(at - from);
            let next = digits.take(at + 1 - from);
            assert(next.drop_last() =~= cut);
            assert(next.last() == ch);
            assert(wide == value_of(next));
        }
        if wide > u32::MAX as u64 {
            proof {
                if all_digits(digits) {
                    a_longer_run_is_worth_no_less(digits, at + 1 - from);
                }
            }
            return None;
        }
        value = wide as u32;
        at = at + 1;
    }
    proof {
        assert(digits.take(at - from) =~= digits);
    }
    Some(value)
}

/// A number written in decimal is digits and nothing else, at least one of
/// them.
pub proof fn decimal_is_digits(n: nat)
    ensures
        decimal(n).len() > 0,
        all_digits(decimal(n)),
    decreases n,
{
    if n >= 10 {
        decimal_is_digits(n / 10);
        let front = decimal(n / 10);
        assert forall|i: int| 0 <= i < decimal(n).len() implies is_digit(#[trigger] decimal(n)[i]) by {
            if i < front.len() {
                assert(decimal(n)[i] == front[i]);
            }
        }
    }
}

/// Text without white space at either end is as it is when trimmed.
pub proof fn trimming_keeps_tight_text(text: Seq<char>)
    requires
        text.len() > 0 ==> !white_space(text[0]) && !white_space(text.last()),
    ensures
        trimmed(text) == text,
{
    assert(text.skip(0) =~= text);
    assert(text.take(text.len() as int) =~= text);
}

/// A number written in decimal has nothing to trim.
pub proof fn decimal_is_tight(n: nat)
    ensures
        trimmed(decimal(n)) == decimal(n),
{
    decimal_is_digits(n);
    let text = decimal(n);
    assert(is_digit(text[0]));
    assert(is_digit(text[text.len() - 1]));
    trimming_keeps_tight_text(text);
}

/// Reading back a number that was written in decimal gives the number.
pub proof fn decimal_reads_back(n: u32)
    ensures
        parsed_u32(decimal(n as nat)) == Some(n),
{
    decimal_is_digits(n as nat);
    decimal_value(n as nat);
    assert(is_digit(decimal(n as nat)[0]));
    assert(without_plus(decimal(n as nat)) == decimal(n as nat));
}

proof fn decimal_value(n: nat)
    ensures
        value_of(decimal(n)) == n,
    decreases n,
{
    if n < 10 {
        reveal_with_fuel(value_of, 2);
        assert(decimal(n).drop_last() =~= Seq::<char>::empty());
    } else {
        decimal_value(n / 10);
        assert(decimal(n).drop_last() =~= decimal(n / 10));
    }
}

/// The white space is twenty-five code points and no others.
pub proof fn white_space_is_these_code_points(ch: char)
    ensures
        white_space(ch) <==> (seq![
            9int, 10, 11, 12, 13, 0x20, 0x85, 0xA0, 0x1680, 0x2000, 0x2001, 0x2002, 0x2003,
            0x2004, 0x2005, 0x2006, 0x2007, 0x2008, 0x2009, 0x200A, 0x2028, 0x2029, 0x202F,
            0x205F, 0x3000,
        ]).contains(ch as int),
{
    let spaces = seq![
        9int, 10, 11, 12, 13, 0x20, 0x85, 0xA0, 0x1680, 0x2000, 0x2001, 0x2002, 0x2003,
        0x2004, 0x2005, 0x2006, 0x2007, 0x2008, 0x2009, 0x200A, 0x2028, 0x2029, 0x202F,
        0x205F, 0x3000,
    ];
    let code = ch as int;
    if white_space(ch) {
        let at: int = if code <= 13 {
            code - 9
        } else if code == 0x20 {
            5
        } else if code == 0x85 {
            6
        } else if code == 0xA0 {
            7
        } else if code == 0x1680 {
            8
        } else if code <= 0x200A {
            code - 0x2000 + 9
        } else if code == 0x2028 {
            20
        } else if code == 0x2029 {
            21
        } else if code == 0x202F {
            22
        } else if code == 0x205F {
            23
        } else {
            24
        };
        assert(spaces[at] == code);
    }
}

/// Writing a number digit by digit: one below ten is the digit itself, and one
/// more digit behind a number is ten times the number and the digit.
pub proof fn a_digit_behind_is_ten_times_as_much(n: nat, d: nat)
    requires
        d < 10,
    ensures
        decimal(d).len() == 1,
        decimal(d)[0] as int == '0' as int + d,
        n > 0 ==> decimal(10 * n + d) == decimal(n) + decimal(d),
{
    if n > 0 {
        assert((10 * n + d) / 10 == n && (10 * n + d) % 10 == d);
        assert(decimal(10 * n + d) =~= decimal(n) + decimal(d));
    }
}

/// A number in decimal starts with no zero, unless it is zero.
pub proof fn no_zero_leads(n: nat)
    ensures
        decimal(n)[0] == '0' <==> n == 0,
    decreases n,
{
    if n >= 10 {
        no_zero_leads(n / 10);
        decimal_is_digits(n / 10);
        assert(decimal(n)[0] == decimal(n / 10)[0]);
    }
}

/// Reading a run of digits: each one more is worth ten times what came before
/// it and itself.
pub proof fn each_digit_is_worth_ten_of_the_next(digits: Seq<char>, ch: char)
    requires
        is_digit(ch),
    ensures
        value_of(digits.push(ch)) == 10 * value_of(digits) + (ch as int - 0x30),
        value_of(seq![]) == 0,
        is_digit(ch) == (0x30 <= ch as int <= 0x39),
{
    assert(digits.push(ch).drop_last() =~= digits);
}

/// The sign and the size of a number are the number: a minus sign exactly below
/// zero, and its distance from zero.
pub proof fn a_sign_and_a_size_make_a_number(n: int)
    ensures
        n >= 0 ==> magnitude(n) == n && sign_of(n).len() == 0,
        n < 0 ==> magnitude(n) + n == 0 && sign_of(n).len() == 1 && sign_of(n)[0] == '-',
{
}

/// Trimming takes the white space off both ends and nothing else: what is left
/// stands in the text between white space, and neither starts nor ends with
/// any.
pub proof fn trimming_takes_white_space_off_both_ends(text: Seq<char>)
    ensures
        exists|from: int, to: int|
            #![trigger text.subrange(from, to)]
            {
                &&& 0 <= from <= to <= text.len()
                &&& trimmed(text) == text.subrange(from, to)
                &&& forall|i: int| 0 <= i < from ==> white_space(#[trigger] text[i])
                &&& forall|i: int| to <= i < text.len() ==> white_space(#[trigger] text[i])
                &&& from < to ==> !white_space(text[from]) && !white_space(text[to - 1])
            },
{
    let from = leading_white(text) as int;
    let front = text.skip(from);
    let back = trailing_white(front) as int;
    let to = text.len() - back;
    white_counts_are_bounded(text);
    white_counts_are_bounded(front);
    the_white_space_counted_is_there(text);
    the_white_space_counted_is_there(front);
    assert(trimmed(text) =~= text.subrange(from, to));
    assert forall|i: int| to <= i < text.len() implies white_space(#[trigger] text[i]) by {
        assert(white_space(front[i - from]));
    }
    if from < to {
        assert(text[from] == front[0]);
        assert(text[to - 1] == front[front.len() - back - 1]);
    }
}

proof fn the_white_space_counted_is_there(text: Seq<char>)
    ensures
        leading_white(text) <= text.len(),
        trailing_white(text) <= text.len(),
        forall|i: int| 0 <= i < leading_white(text) ==> white_space(#[trigger] text[i]),
        leading_white(text) < text.len() ==> !white_space(text[leading_white(text) as int]),
        forall|i: int|
            text.len() - trailing_white(text) <= i < text.len() ==> white_space(
                #[trigger] text[i],
            ),
        trailing_white(text) < text.len() ==> !white_space(
            text[text.len() - trailing_white(text) - 1],
        ),
    decreases text.len(),
{
    if text.len() > 0 {
        the_white_space_counted_is_there(text.skip(1));
        the_white_space_counted_is_there(text.drop_last());
        if white_space(text[0]) {
            assert forall|i: int| 0 <= i < leading_white(text) implies white_space(
                #[trigger] text[i],
            ) by {
                if i > 0 {
                    assert(text[i] == text.skip(1)[i - 1]);
                }
            }
            if leading_white(text) < text.len() {
                assert(text[leading_white(text) as int] == text.skip(1)[leading_white(text) - 1]);
            }
        }
        if white_space(text.last()) {
            assert forall|i: int|
                text.len() - trailing_white(text) <= i < text.len() implies white_space(
                #[trigger] text[i],
            ) by {
                if i < text.len() - 1 {
                    assert(text[i] == text.drop_last()[i]);
                }
            }
        }
    }
}

/// What reads as a number: digits and nothing else, at least one of them,
/// behind one plus sign at most; and a value that fits.
pub proof fn only_a_run_of_digits_reads_as_a_number(text: Seq<char>)
    ensures
        parsed_u32(text) is Some ==> text.len() > 0,
        parsed_u32(text) is Some ==> forall|i: int|
            1 <= i < text.len() ==> '0' <= #[trigger] text[i] <= '9',
        parsed_u32(text) is Some ==> ('0' <= text[0] <= '9') || (text[0] == '+' && text.len() > 1),
        text.len() > 0 && (forall|i: int| 0 <= i < text.len() ==> '0' <= #[trigger] text[i] <= '9')
            ==> {
            &&& parsed_u32(text) is Some <==> value_of(text) <= 0xFFFF_FFFF
            &&& parsed_u32(text) matches Some(n) ==> n == value_of(text)
            &&& parsed_u32(seq!['+'] + text) == parsed_u32(text)
        },
{
    if parsed_u32(text) is Some {
        let digits = without_plus(text);
        assert forall|i: int| 1 <= i < text.len() implies '0' <= #[trigger] text[i] <= '9' by {
            let at = if text[0] == '+' {
                i - 1
            } else {
                i
            };
            assert(is_digit(digits[at]));
            assert(digits[at] == text[i]);
        }
        if text[0] != '+' {
            assert(is_digit(digits[0]));
        }
    }
    if text.len() > 0 && (forall|i: int|
        0 <= i < text.len() ==> '0' <= #[trigger] text[i] <= '9') {
        assert('0' <= text[0] <= '9');
        assert(without_plus(text) == text);
        assert(all_digits(text));
        values_are_not_negative(text);
        assert((seq!['+'] + text).skip(1) =~= text);
        assert(without_plus(seq!['+'] + text) == text);
    }
}

/// A zero in front of a number does not change what it reads as.
pub proof fn a_leading_zero_counts_for_nothing(digits: Seq<char>)
    ensures
        value_of(seq!['0'] + digits) == value_of(digits),
    decreases digits.len(),
{
    if digits.len() == 0 {
        reveal_with_fuel(value_of, 2);
        assert((seq!['0'] + digits).drop_last() =~= seq![]);
    } else {
        a_leading_zero_counts_for_nothing(digits.drop_last());
        assert((seq!['0'] + digits).drop_last() =~= seq!['0'] + digits.drop_last());
    }
}

} // verus!
