//! Script runs, the pieces an option is set in, and what measuring text means.
//!
//! Measuring and drawing are a pair: a string must be split into the same runs
//! for both, or a column is sized in one typeface and painted in another. The
//! rules that decide the split are here, once; putting a font into a device
//! context and asking it for a width is the windowing layer's.

use crate::arith::{fits, toward_zero};
use crate::dpi::{pixel_height, Dpi};
use crate::rect::Rect;
use crate::row::{family_view, DropdownItem, ItemView};
use crate::strs::{is_white_space, same_text, white_space};
use vstd::prelude::*;
use vstd::string::*;

verus! {

/// The first code point the interface font does not cover: everything below is
/// Latin, Greek, Cyrillic, and the punctuation and symbols among them.
pub const SEGOE_COVERS: u32 = 0x0530;

/// The number of cached font pairs beyond which the cache is no longer behaving
/// as it is meant to.
pub const SCRIPT_FONT_CEILING: usize = 64;

/// What one way of measuring text answers: the width of a line, the width of a
/// dropdown option, and the height of a paragraph wrapped into a width.
pub struct TextModel {
    pub line: spec_fn(Seq<char>, bool) -> int,
    pub option: spec_fn(ItemView) -> int,
    pub wrapped: spec_fn(Seq<char>, int) -> int,
}

/// The text measurements the layout cannot derive from the theme.
///
/// Only the font the text will be drawn in can answer them. An implementation
/// answers the same question the same way every time it is asked.
pub trait TextMetrics {
    /// What this measures.
    spec fn model(&self) -> TextModel;

    /// Width of `text` set on one line, in the active language's fonts.
    fn line_width(&mut self, text: &str, bold: bool) -> (w: i32)
        ensures
            w == (old(self).model().line)(text@, bold),
            final(self).model() == old(self).model(),
    ;

    /// Width of one dropdown option, label and native name together.
    fn option_width(&mut self, item: &DropdownItem) -> (w: i32)
        ensures
            w == (old(self).model().option)(item@),
            final(self).model() == old(self).model(),
    ;

    /// Height `text` occupies wrapped into `width`.
    fn wrapped_height(&mut self, text: &str, width: i32) -> (h: i32)
        ensures
            h == (old(self).model().wrapped)(text@, width as int),
            final(self).model() == old(self).model(),
    ;
}

/// The measurements of a program that cannot reach a device context: every
/// answer is zero, which sizes a window to its declared minimum.
pub struct ZeroMetrics;

impl TextMetrics for ZeroMetrics {
    open spec fn model(&self) -> TextModel {
        TextModel {
            line: |text: Seq<char>, bold: bool| 0int,
            option: |item: ItemView| 0int,
            wrapped: |text: Seq<char>, width: int| 0int,
        }
    }

    fn line_width(&mut self, text: &str, bold: bool) -> (w: i32) {
        0
    }

    fn option_width(&mut self, item: &DropdownItem) -> (w: i32) {
        0
    }

    fn wrapped_height(&mut self, text: &str, width: i32) -> (h: i32) {
        0
    }
}

/// The font choices a drawing call needs beyond its device context.
#[derive(Debug, Clone, Copy)]
pub struct Script {
    /// Family the active language needs, or `None` for the interface font.
    pub family: Option<&'static str>,
    /// Scale of the window being drawn.
    pub dpi: Dpi,
    /// Size of the interface font, in hundredths of a point.
    pub centipoints: u32,
}

/// What a script says.
pub struct ScriptView {
    pub family: Option<Seq<char>>,
    pub dpi: u32,
    pub centipoints: u32,
}

impl View for Script {
    type V = ScriptView;

    open spec fn view(&self) -> ScriptView {
        ScriptView {
            family: family_view(self.family),
            dpi: self.dpi.0,
            centipoints: self.centipoints,
        }
    }
}

/// Whether two optional families are the same.
pub fn same_family(a: Option<&'static str>, b: Option<&'static str>) -> (r: bool)
    ensures
        r == (family_view(a) == family_view(b)),
{
    match (a, b) {
        (Some(x), Some(y)) => same_text(x, y),
        (None, None) => true,
        _ => false,
    }
}

impl Script {
    /// Whether this asks for the same fonts as `other`.
    pub fn same(self, other: Script) -> (r: bool)
        ensures
            r == (self@ == other@),
    {
        same_family(self.family, other.family) && self.dpi.0 == other.dpi.0 && self.centipoints
            == other.centipoints
    }
}

/// Whether a character needs the language's own family.
pub open spec fn needs_family(ch: char) -> bool {
    ch as u32 >= SEGOE_COVERS && !white_space(ch)
}

/// `runs` with `ch` joined to the last run of its kind, or starting one.
pub open spec fn joined(runs: Seq<(Seq<char>, bool)>, ch: char, foreign: bool) -> Seq<
    (Seq<char>, bool),
> {
    if runs.len() > 0 && runs.last().1 == foreign {
        runs.drop_last().push((runs.last().0.push(ch), foreign))
    } else {
        runs.push((seq![ch], foreign))
    }
}

/// `text` split into runs that one font can draw, each with whether it needs
/// the language's own family.
pub open spec fn runs_of(text: Seq<char>) -> Seq<(Seq<char>, bool)>
    decreases text.len(),
{
    if text.len() == 0 {
        seq![]
    } else {
        joined(runs_of(text.drop_last()), text.last(), needs_family(text.last()))
    }
}

/// What a list of runs says.
pub open spec fn runs_view(runs: Seq<(String, bool)>) -> Seq<(Seq<char>, bool)> {
    Seq::new(runs.len(), |i: int| (runs[i].0@, runs[i].1))
}

/// Whether a character of this code point goes to the language's own family,
/// knowing whether it is white space.
pub fn is_foreign(ch: char, white: bool) -> (r: bool)
    ensures
        r == (ch as u32 >= SEGOE_COVERS && !white),
{
    ch as u32 >= SEGOE_COVERS && !white
}

/// Joins `ch` to the last run when it is of the same kind, and starts a new run
/// otherwise.
pub fn join_run(runs: &mut Vec<(String, bool)>, ch: char, foreign: bool)
    ensures
        runs_view(final(runs)@) == joined(runs_view(old(runs)@), ch, foreign),
{
    let ghost before = runs@;
    if runs.len() > 0 && runs[runs.len() - 1].1 == foreign {
        let (mut run, kind) = runs.pop().unwrap();
        run.push(ch);
        runs.push((run, kind));
    } else {
        let mut run = String::new();
        run.push(ch);
        proof {
            assert(run@ =~= seq![ch]);
        }
        runs.push((run, foreign));
    }
    proof {
        assert(runs_view(runs@) =~= joined(runs_view(before), ch, foreign));
    }
}

/// Splits text into runs that one font can draw, in order.
///
/// Each run is `(text, needs_script_font)`. White space joins whichever run
/// precedes it when that run is in the interface font.
pub fn script_runs(text: &str) -> (runs: Vec<(String, bool)>)
    ensures
        runs_view(runs@) == runs_of(text@),
{
    let n: usize = text.unicode_len();
    let mut runs: Vec<(String, bool)> = Vec::new();
    let mut i: usize = 0;
    proof {
        assert(text@.take(0) =~= seq![]);
        assert(runs_view(runs@) =~= runs_of(text@.take(0)));
    }
    while i < n
        invariant
            i <= n,
            n == text@.len(),
            runs_view(runs@) == runs_of(text@.take(i as int)),
        decreases n - i,
    {
        let ch: char = text.get_char(i);
        let white: bool = is_white_space(ch);
        join_run(&mut runs, ch, is_foreign(ch, white));
        proof {
            let next = text@.take(i + 1);
            assert(next.drop_last() =~= text@.take(i as int));
            assert(next.last() == ch);
        }
        i = i + 1;
    }
    proof {
        assert(text@.take(n as int) =~= text@);
    }
    runs
}

/// Every run of `runs` one after the other.
pub open spec fn reassembled(runs: Seq<(Seq<char>, bool)>) -> Seq<char>
    decreases runs.len(),
{
    if runs.len() == 0 {
        seq![]
    } else {
        reassembled(runs.drop_last()) + runs.last().0
    }
}

/// Splitting never loses or reorders a character.
pub proof fn runs_reassemble_to_the_original(text: Seq<char>)
    ensures
        reassembled(runs_of(text)) == text,
    decreases text.len(),
{
    if text.len() > 0 {
        let front = runs_of(text.drop_last());
        let all = runs_of(text);
        runs_reassemble_to_the_original(text.drop_last());
        if front.len() > 0 && front.last().1 == needs_family(text.last()) {
            assert(all.drop_last() =~= front.drop_last());
            assert(reassembled(front) == reassembled(front.drop_last()) + front.last().0);
            assert(reassembled(all) =~= reassembled(front).push(text.last()));
        } else {
            assert(all.drop_last() =~= front);
            assert(reassembled(all) =~= reassembled(front).push(text.last()));
        }
        assert(text.drop_last().push(text.last()) =~= text);
    }
}

/// No run is empty, every character of a run is of the run's own kind, and two
/// runs side by side are of different kinds.
pub proof fn runs_are_uniform_and_alternate(text: Seq<char>)
    ensures
        forall|i: int|
            0 <= i < runs_of(text).len() ==> (#[trigger] runs_of(text)[i]).0.len() > 0,
        forall|i: int, j: int|
            0 <= i < runs_of(text).len() && 0 <= j < runs_of(text)[i].0.len() ==> needs_family(
                #[trigger] runs_of(text)[i].0[j],
            ) == runs_of(text)[i].1,
        forall|i: int, j: int|
            #![trigger runs_of(text)[i], runs_of(text)[j]]
            0 <= i < runs_of(text).len() && j == i + 1 && j < runs_of(text).len() ==> runs_of(
                text,
            )[i].1 != runs_of(text)[j].1,
    decreases text.len(),
{
    if text.len() > 0 {
        runs_are_uniform_and_alternate(text.drop_last());
        let front = runs_of(text.drop_last());
        let all = runs_of(text);
        if front.len() > 0 && front.last().1 == needs_family(text.last()) {
            let k = front.len() - 1;
            assert forall|i: int| 0 <= i < all.len() implies (#[trigger] all[i]).0.len() > 0 by {
                assert(front[i].0.len() > 0);
            }
            assert forall|i: int, j: int|
                0 <= i < all.len() && 0 <= j < all[i].0.len() implies needs_family(
                #[trigger] all[i].0[j],
            ) == all[i].1 by {
                if j < front[i].0.len() {
                    assert(needs_family(front[i].0[j]) == front[i].1);
                }
            }
            assert forall|i: int, j: int|
                #![trigger all[i], all[j]]
                0 <= i < all.len() && j == i + 1 && j < all.len() implies all[i].1 != all[j].1 by {
                assert(front[i].1 != front[j].1);
            }
        } else {
            assert forall|i: int| 0 <= i < all.len() implies (#[trigger] all[i]).0.len() > 0 by {
                if i < front.len() {
                    assert(front[i].0.len() > 0);
                }
            }
            assert forall|i: int, j: int|
                0 <= i < all.len() && 0 <= j < all[i].0.len() implies needs_family(
                #[trigger] all[i].0[j],
            ) == all[i].1 by {
                if i < front.len() {
                    assert(needs_family(front[i].0[j]) == front[i].1);
                }
            }
            assert forall|i: int, j: int|
                #![trigger all[i], all[j]]
                0 <= i < all.len() && j == i + 1 && j < all.len() implies all[i].1 != all[j].1 by {
                if j < front.len() {
                    assert(front[i].1 != front[j].1);
                }
            }
        }
    }
}

/// Text the interface font covers is one run, and never asks for another font.
pub proof fn covered_text_stays_in_one_run(text: Seq<char>)
    requires
        text.len() > 0,
        forall|i: int| 0 <= i < text.len() ==> !needs_family(#[trigger] text[i]),
    ensures
        runs_of(text) == seq![(text, false)],
    decreases text.len(),
{
    assert(!needs_family(text[text.len() - 1]));
    if text.len() == 1 {
        assert(text.drop_last() =~= seq![]);
        assert(runs_of(text.drop_last()) =~= seq![]);
        assert(seq![text.last()] =~= text);
        assert(runs_of(text) =~= seq![(text, false)]);
    } else {
        covered_text_stays_in_one_run(text.drop_last());
        assert(text.drop_last().push(text.last()) =~= text);
        assert(runs_of(text) =~= seq![(text, false)]);
    }
}

/// Whether split text needs a pass of its own per run.
pub open spec fn needs_pass(runs: Seq<(Seq<char>, bool)>) -> bool {
    runs.len() > 1 || (runs.len() == 1 && runs[0].1)
}

/// Whether a split string needs the per-run font pass at all: the one predicate
/// of the measurer and the painter.
pub fn needs_script_pass(runs: &Vec<(String, bool)>) -> (r: bool)
    ensures
        r == needs_pass(runs_view(runs@)),
{
    runs.len() > 1 || (runs.len() == 1 && runs[0].1)
}

/// The pieces a line is measured and drawn in, each with whether it is set in
/// the language's own family.
pub open spec fn pieces_of(text: Seq<char>, has_family: bool) -> Seq<(Seq<char>, bool)> {
    if has_family && needs_pass(runs_of(text)) {
        runs_of(text)
    } else {
        seq![(text, false)]
    }
}

/// The pieces a line is measured and drawn in: its runs when the language has a
/// family of its own and some run needs it, the whole line otherwise.
pub fn line_pieces(text: &str, has_family: bool) -> (pieces: Vec<(String, bool)>)
    ensures
        runs_view(pieces@) == pieces_of(text@, has_family),
{
    if has_family {
        let runs = script_runs(text);
        if needs_script_pass(&runs) {
            return runs;
        }
    }
    let mut whole: Vec<(String, bool)> = Vec::new();
    whole.push((text.to_owned(), false));
    proof {
        assert(runs_view(whole@) =~= seq![(text@, false)]);
    }
    whole
}

/// The pieces of a line are the line, whichever way it is set.
pub proof fn pieces_reassemble_to_the_line(text: Seq<char>, has_family: bool)
    ensures
        reassembled(pieces_of(text, has_family)) == text,
{
    runs_reassemble_to_the_original(text);
    let whole = seq![(text, false)];
    assert(whole.drop_last() =~= seq![]);
    reveal_with_fuel(reassembled, 2);
    assert(reassembled(whole) =~= text);
}

/// The sum of some widths.
pub open spec fn sum_of(widths: Seq<i32>) -> int
    decreases widths.len(),
{
    if widths.len() == 0 {
        0
    } else {
        sum_of(widths.drop_last()) + widths.last()
    }
}

/// Where each piece of a line starts: the first at `start`, each of the others
/// where the one before it ended.
pub fn piece_starts(start: i32, widths: &Vec<i32>) -> (starts: Vec<i32>)
    requires
        forall|k: int|
            0 <= k <= widths@.len() ==> fits(start + #[trigger] sum_of(widths@.take(k))),
    ensures
        starts@.len() == widths@.len(),
        forall|k: int|
            0 <= k < starts@.len() ==> #[trigger] starts@[k] == start + sum_of(widths@.take(k)),
{
    let mut starts: Vec<i32> = Vec::new();
    let mut x: i32 = start;
    let mut i: usize = 0;
    proof {
        assert(widths@.take(0) =~= seq![]);
    }
    while i < widths.len()
        invariant
            i <= widths@.len(),
            starts@.len() == i,
            x == start + sum_of(widths@.take(i as int)),
            forall|k: int|
                0 <= k <= widths@.len() ==> fits(start + #[trigger] sum_of(widths@.take(k))),
            forall|k: int|
                0 <= k < i ==> #[trigger] starts@[k] == start + sum_of(widths@.take(k)),
        decreases widths.len() - i,
    {
        starts.push(x);
        proof {
            let next = widths@.take(i + 1);
            assert(next.drop_last() =~= widths@.take(i as int));
            assert(next.last() == widths@[i as int]);
            assert(fits(start + sum_of(next)));
        }
        x = x + widths[i];
        i = i + 1;
    }
    starts
}

/// The width of a line: the sum of the widths of its pieces.
pub fn line_total(widths: &Vec<i32>) -> (total: i32)
    requires
        forall|k: int| 0 <= k <= widths@.len() ==> fits(#[trigger] sum_of(widths@.take(k))),
    ensures
        total == sum_of(widths@),
{
    let mut total: i32 = 0;
    let mut i: usize = 0;
    proof {
        assert(widths@.take(0) =~= seq![]);
    }
    while i < widths.len()
        invariant
            i <= widths@.len(),
            total == sum_of(widths@.take(i as int)),
            forall|k: int| 0 <= k <= widths@.len() ==> fits(#[trigger] sum_of(widths@.take(k))),
        decreases widths.len() - i,
    {
        proof {
            let next = widths@.take(i + 1);
            assert(next.drop_last() =~= widths@.take(i as int));
            assert(fits(sum_of(next)));
        }
        total = total + widths[i];
        i = i + 1;
    }
    proof {
        assert(widths@.take(i as int) =~= widths@);
    }
    total
}

/// The left edge a line `total` wide is drawn from.
pub open spec fn start_of(area: Rect, total: int, centred: bool) -> int {
    if centred {
        area.left + toward_zero((area.right - area.left) - total, 2)
    } else {
        area.left as int
    }
}

/// The left edge a line set in several runs is drawn from: centred from its
/// measured width, or the left of the area.
pub fn line_start(area: Rect, total: i32, centred: bool) -> (x: i32)
    requires
        fits(start_of(area, total as int, centred)),
    ensures
        x == start_of(area, total as int, centred),
{
    if centred {
        let slack: i64 = (area.right as i64 - area.left as i64) - total as i64;
        (area.left as i64 + slack / 2) as i32
    } else {
        area.left
    }
}

/// What a list of option pieces says.
pub open spec fn pieces_view(pieces: Seq<(String, Option<&'static str>)>) -> Seq<
    (Seq<char>, Option<Seq<char>>),
> {
    Seq::new(pieces.len(), |i: int| (pieces[i].0@, family_view(pieces[i].1)))
}

/// The pieces one dropdown option is drawn from, each with the family its
/// foreign runs are set in.
pub open spec fn item_pieces_of(item: ItemView, active: Option<Seq<char>>) -> Seq<
    (Seq<char>, Option<Seq<char>>),
> {
    if item.native.len() == 0 {
        seq![(item.label, active)]
    } else {
        seq![
            (item.label + seq![' ', '('], active),
            (item.native, if item.font is Some { item.font } else { active }),
            (seq![')'], active),
        ]
    }
}

/// The pieces one dropdown option is drawn from, in order, each paired with the
/// font family its foreign runs must be set in.
///
/// The native name is set in the option's own font whatever the interface
/// language is; the label and the parentheses follow the active language.
pub fn item_pieces(item: &DropdownItem, script: Script) -> (pieces: Vec<
    (String, Option<&'static str>),
>)
    ensures
        pieces_view(pieces@) == item_pieces_of(item@, script@.family),
{
    let active = script.family;
    let mut pieces: Vec<(String, Option<&'static str>)> = Vec::new();
    if item.native.as_str().is_empty() {
        pieces.push((item.label.clone(), active));
    } else {
        let mut head = item.label.clone();
        head.push(' ');
        head.push('(');
        proof {
            assert(head@ =~= item.label@ + seq![' ', '(']);
        }
        pieces.push((head, active));
        let own = match item.font {
            Some(name) => Some(name),
            None => active,
        };
        pieces.push((item.native.clone(), own));
        let mut tail = String::new();
        tail.push(')');
        proof {
            assert(tail@ =~= seq![')']);
        }
        pieces.push((tail, active));
    }
    proof {
        assert(pieces_view(pieces@) =~= item_pieces_of(item@, script@.family));
    }
    pieces
}

/// How many UTF-16 units a character takes.
pub open spec fn units(ch: char) -> int {
    if ch as u32 >= 0x1_0000 {
        2
    } else {
        1
    }
}

/// How many UTF-16 units a text takes.
pub open spec fn units_of(text: Seq<char>) -> int
    decreases text.len(),
{
    if text.len() == 0 {
        0
    } else {
        units_of(text.drop_last()) + units(text.last())
    }
}

/// The width after the first `k` characters, read off the widths after each
/// UTF-16 unit; zero where nothing was measured.
pub open spec fn offset_after(text: Seq<char>, widths: Seq<i32>, k: int) -> int {
    let unit = units_of(text.take(k)) - 1;
    if 0 <= unit < widths.len() {
        widths[unit] as int
    } else {
        0
    }
}

/// Maps a width array with one entry per UTF-16 unit onto one offset per
/// character of `text`: the one at the last unit of the character.
pub fn caret_offsets_from_widths(text: &str, widths: &[i32]) -> (offsets: Vec<i32>)
    ensures
        offsets@.len() == text@.len(),
        forall|i: int|
            0 <= i < text@.len() ==> #[trigger] offsets@[i] == offset_after(
                text@,
                widths@,
                i + 1,
            ),
{
    let n: usize = text.unicode_len();
    let mut offsets: Vec<i32> = Vec::new();
    let mut unit: u128 = 0;
    let mut i: usize = 0;
    proof {
        assert(text@.take(0) =~= seq![]);
    }
    while i < n
        invariant
            i <= n,
            n == text@.len(),
            offsets@.len() == i,
            unit == units_of(text@.take(i as int)),
            unit <= 2 * i,
            forall|k: int|
                0 <= k < i ==> #[trigger] offsets@[k] == offset_after(text@, widths@, k + 1),
        decreases n - i,
    {
        let ch: char = text.get_char(i);
        proof {
            let next = text@.take(i + 1);
            assert(next.drop_last() =~= text@.take(i as int));
            assert(next.last() == ch);
        }
        let wide: u128 = if ch as u32 >= 0x1_0000 {
            2
        } else {
            1
        };
        unit = unit + wide;
        let offset: i32 = if unit - 1 < widths.len() as u128 {
            widths[(unit - 1) as usize]
        } else {
            0
        };
        offsets.push(offset);
        i = i + 1;
    }
    offsets
}

/// One cached font pair: family, device height in pixels, and the handles.
#[derive(Debug)]
pub struct CachedFont<H> {
    pub family: &'static str,
    pub height: i32,
    pub pair: H,
}

/// The font pairs made so far, keyed by family and pixel height and never
/// evicted: the handles are handed out to windows that may still draw with
/// them.
#[derive(Debug)]
pub struct FontCache<H> {
    pub fonts: Vec<CachedFont<H>>,
    /// Whether passing the ceiling has been reported.
    pub reported: bool,
}

/// Where in a cache the pair for a family and a height is, if it is.
pub open spec fn cached_at<H>(fonts: Seq<CachedFont<H>>, family: Seq<char>, height: int) -> Option<
    int,
>
    decreases fonts.len(),
{
    if fonts.len() == 0 {
        None
    } else {
        match cached_at(fonts.drop_last(), family, height) {
            Some(i) => Some(i),
            None => if fonts.last().family@ == family && fonts.last().height == height {
                Some(fonts.len() - 1)
            } else {
                None
            },
        }
    }
}

/// Whether adding a pair to a cache of `count` is reported.
pub open spec fn reports(count: int, reported: bool) -> bool {
    count >= SCRIPT_FONT_CEILING && !reported
}

impl<H: Copy> FontCache<H> {
    /// A cache with nothing in it.
    pub fn new() -> (c: FontCache<H>)
        ensures
            c.fonts@.len() == 0,
            !c.reported,
    {
        FontCache { fonts: Vec::new(), reported: false }
    }

    /// The pair cached for a family at a height: the first one made.
    pub fn find(&self, family: &str, height: i32) -> (r: Option<H>)
        ensures
            r == (match cached_at(self.fonts@, family@, height as int) {
                Some(i) => Some(self.fonts@[i].pair),
                None => None,
            }),
    {
        let mut i: usize = 0;
        proof {
            assert(self.fonts@.take(0) =~= seq![]);
        }
        while i < self.fonts.len()
            invariant
                i <= self.fonts@.len(),
                cached_at(self.fonts@.take(i as int), family@, height as int) is None,
            decreases self.fonts.len() - i,
        {
            proof {
                let next = self.fonts@.take(i + 1);
                assert(next.drop_last() =~= self.fonts@.take(i as int));
                assert(next.last() == self.fonts@[i as int]);
            }
            if same_text(self.fonts[i].family, family) && self.fonts[i].height == height {
                proof {
                    the_first_match_stays_first(self.fonts@, i + 1, family@, height as int);
                }
                return Some(self.fonts[i].pair);
            }
            i = i + 1;
        }
        proof {
            assert(self.fonts@.take(i as int) =~= self.fonts@);
        }
        None
    }

    /// Adds a pair, and says whether the cache has just grown past what is
    /// expected of it: once in its life.
    pub fn insert(&mut self, family: &'static str, height: i32, pair: H) -> (report: bool)
        ensures
            final(self).fonts@ == old(self).fonts@.push(
                CachedFont { family, height, pair },
            ),
            report == (old(self).fonts@.len() >= SCRIPT_FONT_CEILING && !old(self).reported),
            final(self).reported == (old(self).reported || report),
            report == reports(old(self).fonts@.len() as int, old(self).reported),
    {
        self.fonts.push(CachedFont { family, height, pair });
        if self.fonts.len() > SCRIPT_FONT_CEILING && !self.reported {
            self.reported = true;
            return true;
        }
        false
    }
}

proof fn the_first_match_stays_first<H>(
    fonts: Seq<CachedFont<H>>,
    cut: int,
    family: Seq<char>,
    height: int,
)
    requires
        0 <= cut <= fonts.len(),
        cached_at(fonts.take(cut), family, height) is Some,
    ensures
        cached_at(fonts, family, height) == cached_at(fonts.take(cut), family, height),
    decreases fonts.len() - cut,
{
    if cut == fonts.len() {
        assert(fonts.take(cut) =~= fonts);
    } else {
        assert(fonts.take(cut + 1).drop_last() =~= fonts.take(cut));
        the_first_match_stays_first(fonts, cut + 1, family, height);
    }
}

/// A pair that was added under a family and a height not cached before is what
/// a later search for them finds, and what was cached before is still found.
pub proof fn a_cached_font_is_found_again<H>(
    fonts: Seq<CachedFont<H>>,
    added: CachedFont<H>,
    family: Seq<char>,
    height: int,
)
    ensures
        cached_at(fonts, family, height) is Some ==> cached_at(
            fonts.push(added),
            family,
            height,
        ) == cached_at(fonts, family, height),
        cached_at(fonts, added.family@, added.height as int) is None ==> cached_at(
            fonts.push(added),
            added.family@,
            added.height as int,
        ) == Some(fonts.len() as int),
{
    assert(fonts.push(added).drop_last() =~= fonts);
}

/// The height a font is asked for at.
pub open spec fn asked_height(centipoints: int, dpi: int) -> int {
    -pixel_height(centipoints, dpi)
}

/// The height a font is asked for at: the negative of its pixel height, which
/// names the character rather than its cell.
pub fn font_height(centipoints: u32, dpi: Dpi) -> (r: i32)
    requires
        fits(pixel_height(centipoints as int, dpi.0 as int)),
    ensures
        r == -pixel_height(centipoints as int, dpi.0 as int),
        r == asked_height(centipoints as int, dpi.0 as int),
{
    -dpi.points_to_pixels(centipoints)
}

/// The kind of a run is fixed by the code points in it: every character of a
/// run set in the language's own family lies past what the interface font
/// covers and is no white space, and no character of another run is such a one.
pub proof fn code_points_decide_the_runs(text: Seq<char>)
    ensures
        SEGOE_COVERS == 0x0530,
        forall|i: int, j: int|
            0 <= i < runs_of(text).len() && 0 <= j < runs_of(text)[i].0.len() ==> runs_of(
                text,
            )[i].1 == ((#[trigger] runs_of(text)[i].0[j]) as u32 >= SEGOE_COVERS && !white_space(
                runs_of(text)[i].0[j],
            )),
{
    runs_are_uniform_and_alternate(text);
    assert forall|i: int, j: int|
        0 <= i < runs_of(text).len() && 0 <= j < runs_of(text)[i].0.len() implies runs_of(
        text,
    )[i].1 == ((#[trigger] runs_of(text)[i].0[j]) as u32 >= SEGOE_COVERS && !white_space(
        runs_of(text)[i].0[j],
    )) by {
        assert(needs_family(runs_of(text)[i].0[j]) == runs_of(text)[i].1);
    }
}

/// A line is set in one piece in the interface font when the language has no
/// family of its own, or when no character of the line needs it; otherwise each
/// of its pieces is of one kind.
pub proof fn a_line_is_split_exactly_when_a_character_needs_it(text: Seq<char>, has_family: bool)
    ensures
        !has_family ==> pieces_of(text, has_family) == seq![(text, false)],
        (forall|i: int|
            0 <= i < text.len() ==> ((#[trigger] text[i]) as u32) < SEGOE_COVERS || white_space(
                text[i],
            )) ==> pieces_of(text, has_family) == seq![(text, false)],
        has_family && !(forall|i: int|
            0 <= i < text.len() ==> ((#[trigger] text[i]) as u32) < SEGOE_COVERS || white_space(
                text[i],
            )) ==> forall|i: int, j: int|
            0 <= i < pieces_of(text, has_family).len() && 0 <= j < pieces_of(
                text,
                has_family,
            )[i].0.len() ==> pieces_of(text, has_family)[i].1 == ((#[trigger] pieces_of(
                text,
                has_family,
            )[i].0[j]) as u32 >= SEGOE_COVERS && !white_space(pieces_of(text, has_family)[i].0[j])),
{
    code_points_decide_the_runs(text);
    if forall|i: int|
        0 <= i < text.len() ==> ((#[trigger] text[i]) as u32) < SEGOE_COVERS || white_space(text[i]) {
        if text.len() == 0 {
            assert(runs_of(text) =~= seq![]);
        } else {
            covered_text_stays_in_one_run(text);
        }
    } else if has_family && !needs_pass(runs_of(text)) {
        runs_reassemble_to_the_original(text);
        let k = choose|i: int|
            0 <= i < text.len() && !(((#[trigger] text[i]) as u32) < SEGOE_COVERS || white_space(
                text[i],
            ));
        let runs = runs_of(text);
        if runs.len() == 1 {
            assert(reassembled(runs.drop_last()) =~= seq![]);
            assert(runs[0].0 =~= text);
            assert(runs[0].0[k] == text[k]);
        } else {
            assert(runs =~= seq![]);
        }
    }
}

/// A run drawn centred leaves the same on both sides, the odd pixel beyond it;
/// one that is not starts at the left of its area.
pub proof fn a_centred_line_starts_half_the_slack_in(area: Rect, total: int)
    ensures
        start_of(area, total, false) == area.left,
        ({
            let near = start_of(area, total, true) - area.left;
            let far = area.right - (start_of(area, total, true) + total);
            &&& total <= area.right - area.left ==> 0 <= near <= far <= near + 1
            &&& total >= area.right - area.left ==> near - 1 <= far <= near <= 0
        }),
{
}

/// Each piece of a line starts where the one before it ends.
pub proof fn pieces_follow_each_other(widths: Seq<i32>, k: int)
    requires
        0 <= k < widths.len(),
    ensures
        sum_of(widths.take(0)) == 0,
        sum_of(widths.take(k + 1)) == sum_of(widths.take(k)) + widths[k],
{
    assert(widths.take(k + 1).drop_last() =~= widths.take(k));
}

/// An option reads as its label, followed by its native name in parentheses
/// when it has one; the native name is set in the option's own family when it
/// names one, and all the rest in the active language's.
pub proof fn an_option_reads_as_its_two_names(item: ItemView, active: Option<Seq<char>>)
    ensures
        ({
            let pieces = item_pieces_of(item, active);
            if item.native.len() == 0 {
                pieces.len() == 1 && pieces[0].0 == item.label && pieces[0].1 == active
            } else {
                &&& pieces.len() == 3
                &&& pieces[0].0 + pieces[1].0 + pieces[2].0 == item.label + seq![' ', '(']
                    + item.native + seq![')']
                &&& pieces[1].0 == item.native
                &&& pieces[2].0.len() == 1
                &&& pieces[0].1 == active
                &&& item.font is Some ==> pieces[1].1 == item.font
                &&& item.font is None ==> pieces[1].1 == active
                &&& pieces[2].1 == active
            }
        }),
{
}

/// Each character takes one UTF-16 unit, and two from U+10000 on, so that in
/// text below it the caret offset after a character is the width measured for
/// it.
pub proof fn an_offset_is_read_at_the_last_unit(text: Seq<char>, widths: Seq<i32>, k: int)
    requires
        0 <= k < text.len(),
    ensures
        units_of(text.take(0)) == 0,
        units_of(text.take(k + 1)) - units_of(text.take(k)) == if (text[k] as u32) < 0x1_0000 {
            1
        } else {
            2int
        },
        units_of(text.take(k + 1)) > 0,
        units_of(text.take(k + 1)) <= widths.len() ==> offset_after(text, widths, k + 1)
            == widths[units_of(text.take(k + 1)) - 1],
        units_of(text.take(k + 1)) > widths.len() ==> offset_after(text, widths, k + 1) == 0,
{
    assert(text.take(k + 1).drop_last() =~= text.take(k));
    units_are_counted(text.take(k));
}

proof fn units_are_counted(text: Seq<char>)
    ensures
        units_of(text) >= text.len(),
        (forall|i: int| 0 <= i < text.len() ==> (#[trigger] text[i] as u32) < 0x1_0000)
            ==> units_of(text) == text.len(),
    decreases text.len(),
{
    if text.len() > 0 {
        units_are_counted(text.drop_last());
        if forall|i: int| 0 <= i < text.len() ==> (#[trigger] text[i] as u32) < 0x1_0000 {
            assert(forall|i: int|
                0 <= i < text.drop_last().len() ==> text.drop_last()[i] == text[i]);
            assert((text[text.len() - 1] as u32) < 0x1_0000);
        }
    }
}

/// In text whose characters all take one unit, the offset after `k` of them is
/// the `k`-th width measured.
pub proof fn plain_text_reads_its_widths_in_order(text: Seq<char>, widths: Seq<i32>, k: int)
    requires
        0 < k <= text.len(),
        k <= widths.len(),
        forall|i: int| 0 <= i < text.len() ==> (#[trigger] text[i] as u32) < 0x1_0000,
    ensures
        offset_after(text, widths, k) == widths[k - 1],
{
    assert forall|i: int| 0 <= i < text.take(k).len() implies (#[trigger] text.take(k)[i] as u32)
        < 0x1_0000 by {
        assert(text.take(k)[i] == text[i]);
    }
    units_are_counted(text.take(k));
}

/// A search of the cache finds the first pair made for exactly that family at
/// exactly that height, and finds none only when there is none.
pub proof fn a_search_finds_the_first_match<H>(
    fonts: Seq<CachedFont<H>>,
    family: Seq<char>,
    height: int,
)
    ensures
        match cached_at(fonts, family, height) {
            Some(i) => {
                &&& 0 <= i < fonts.len()
                &&& fonts[i].family@ == family
                &&& fonts[i].height == height
                &&& forall|j: int|
                    0 <= j < i ==> (#[trigger] fonts[j]).family@ != family || fonts[j].height
                        != height
            },
            None => forall|j: int|
                0 <= j < fonts.len() ==> (#[trigger] fonts[j]).family@ != family || fonts[j].height
                    != height,
        },
    decreases fonts.len(),
{
    if fonts.len() > 0 {
        let front = fonts.drop_last();
        a_search_finds_the_first_match(front, family, height);
        assert(forall|j: int| 0 <= j < front.len() ==> front[j] == fonts[j]);
    }
}

/// A font is asked for at the negative of its height in pixels, to the nearest.
pub proof fn a_font_is_asked_for_by_its_character(centipoints: int, dpi: int)
    requires
        centipoints * dpi >= 0,
    ensures
        asked_height(centipoints, dpi) <= 0,
        -3600 <= 7200 * asked_height(centipoints, dpi) + centipoints * dpi < 3600,
{
}

/// Growing past sixty-four pairs is reported, and never a second time.
pub proof fn a_full_cache_is_reported_once(count: int)
    ensures
        reports(count, false) <==> count + 1 > 64,
        !reports(count, true),
{
}

} // verus!
