//! A single-line text editor with a caret and a selection.
//!
//! The state is the text and two character indices, the cursor and the anchor.
//! The selection is the range between them; when they are equal there is only
//! a caret. Every edit is the same rule: replace whatever is selected, then
//! move the caret. Indices count characters, never bytes.

use crate::strs::{all_digits, is_digit};
use vstd::prelude::*;
use vstd::string::*;

verus! {

/// Which characters a field accepts.
#[derive(Clone, Copy, PartialEq, Eq, Debug, Structural)]
pub enum CharFilter {
    /// The ten decimal digits only.
    Digits,
}

impl CharFilter {
    /// Whether the field takes this character.
    pub open spec fn admits(self, c: char) -> bool {
        match self {
            CharFilter::Digits => is_digit(c),
        }
    }

    /// Whether the field takes this character.
    pub fn accepts(self, c: char) -> (r: bool)
        ensures
            r == self.admits(c),
    {
        match self {
            CharFilter::Digits => '0' <= c && c <= '9',
        }
    }
}

/// A single-line editable text field.
///
/// `cursor` and `anchor` are character offsets, equal when nothing is selected.
#[derive(Debug)]
pub struct TextField {
    text: String,
    cursor: usize,
    anchor: usize,
    filter: CharFilter,
    max_len: usize,
}

/// What a field holds.
#[verifier::ext_equal]
pub struct FieldView {
    pub text: Seq<char>,
    pub cursor: int,
    pub anchor: int,
    pub filter: CharFilter,
    pub max_len: int,
}

impl View for TextField {
    type V = FieldView;

    closed spec fn view(&self) -> FieldView {
        FieldView {
            text: self.text@,
            cursor: self.cursor as int,
            anchor: self.anchor as int,
            filter: self.filter,
            max_len: self.max_len as int,
        }
    }
}

impl FieldView {
    /// Both indices are positions in the text.
    pub open spec fn wf(self) -> bool {
        &&& 0 <= self.cursor <= self.text.len()
        &&& 0 <= self.anchor <= self.text.len()
        &&& 0 <= self.max_len
    }

    /// A field holding `text`, the caret at its end and nothing selected.
    pub open spec fn holding(text: Seq<char>, filter: CharFilter, max_len: int) -> FieldView {
        FieldView {
            text,
            cursor: text.len() as int,
            anchor: text.len() as int,
            filter,
            max_len,
        }
    }

    /// The near edge of the selection.
    pub open spec fn low(self) -> int {
        if self.cursor <= self.anchor {
            self.cursor
        } else {
            self.anchor
        }
    }

    /// The far edge of the selection.
    pub open spec fn high(self) -> int {
        if self.cursor <= self.anchor {
            self.anchor
        } else {
            self.cursor
        }
    }

    /// Whether anything is selected.
    pub open spec fn selecting(self) -> bool {
        self.cursor != self.anchor
    }

    /// With `from..to` of the text removed and the caret there.
    pub open spec fn cut(self, from: int, to: int) -> FieldView {
        FieldView {
            text: self.text.take(from) + self.text.skip(to),
            cursor: from,
            anchor: from,
            ..self
        }
    }

    /// Without the selected text; as it is when nothing is selected.
    pub open spec fn without_selection(self) -> FieldView {
        if self.selecting() {
            self.cut(self.low(), self.high())
        } else {
            self
        }
    }

    /// With the caret at `at`, the anchor following it unless the move extends
    /// the selection.
    pub open spec fn caret_at(self, at: int, extend: bool) -> FieldView {
        FieldView {
            cursor: at,
            anchor: if extend {
                self.anchor
            } else {
                at
            },
            ..self
        }
    }

    /// What typing `c` does, and whether it changed anything. Typing replaces
    /// the selection; a full field takes no more.
    pub open spec fn typed(self, c: char) -> (FieldView, bool) {
        let rest = self.without_selection();
        if !self.filter.admits(c) {
            (self, false)
        } else if rest.text.len() >= self.max_len {
            (rest, self.selecting())
        } else {
            (
                FieldView {
                    text: rest.text.insert(rest.cursor, c),
                    cursor: rest.cursor + 1,
                    anchor: rest.cursor + 1,
                    ..rest
                },
                true,
            )
        }
    }

    /// What one editing event does, and whether it changed anything.
    pub open spec fn edited(self, edit: FieldEdit) -> (FieldView, bool) {
        let len = self.text.len() as int;
        match edit {
            FieldEdit::Insert(c) => self.typed(c),
            FieldEdit::Backspace => if self.selecting() {
                (self.without_selection(), true)
            } else if self.cursor == 0 {
                (self, false)
            } else {
                (self.cut(self.cursor - 1, self.cursor), true)
            },
            FieldEdit::Delete => if self.selecting() {
                (self.without_selection(), true)
            } else if self.cursor >= len {
                (self, false)
            } else {
                (self.cut(self.cursor, self.cursor + 1), true)
            },
            // Unshifted against a selection the arrows go to its edge.
            FieldEdit::Left { extend } => if !extend && self.selecting() {
                (self.caret_at(self.low(), false), true)
            } else if self.cursor == 0 {
                (self, false)
            } else {
                (self.caret_at(self.cursor - 1, extend), true)
            },
            FieldEdit::Right { extend } => if !extend && self.selecting() {
                (self.caret_at(self.high(), false), true)
            } else if self.cursor >= len {
                (self, false)
            } else {
                (self.caret_at(self.cursor + 1, extend), true)
            },
            FieldEdit::Home { extend } => (
                self.caret_at(0, extend),
                self.cursor != 0 || (!extend && self.anchor != 0),
            ),
            FieldEdit::End { extend } => (
                self.caret_at(len, extend),
                self.cursor != len || (!extend && self.anchor != len),
            ),
            FieldEdit::SelectAll => if len == 0 {
                (self, false)
            } else {
                (
                    FieldView { anchor: 0, cursor: len, ..self },
                    self.anchor != 0 || self.cursor != len,
                )
            },
            FieldEdit::CaretTo { index, extend } => {
                let at = if index as int <= len {
                    index as int
                } else {
                    len
                };
                (
                    self.caret_at(at, extend),
                    at != self.cursor || (!extend && self.anchor != at),
                )
            },
        }
    }
}

/// One editing operation against a [`TextField`].
#[derive(Clone, Copy, PartialEq, Eq, Debug, Structural)]
pub enum FieldEdit {
    Insert(char),
    Backspace,
    Delete,
    Left { extend: bool },
    Right { extend: bool },
    Home { extend: bool },
    End { extend: bool },
    SelectAll,
    /// Place the caret at this character index; `extend` grows the selection.
    CaretTo { index: usize, extend: bool },
}

impl TextField {
    /// Both indices are positions in the text.
    #[verifier::type_invariant]
    pub open spec fn valid(self) -> bool {
        self@.wf()
    }

    /// Creates a field holding `text`, with the caret at the end and nothing
    /// selected. `max_len` counts characters.
    pub fn new(text: &str, filter: CharFilter, max_len: usize) -> (f: TextField)
        ensures
            f@ == FieldView::holding(text@, filter, max_len as int),
            f@.wf(),
    {
        let end: usize = text.unicode_len();
        TextField { text: text.to_owned(), cursor: end, anchor: end, filter, max_len }
    }

    /// The current text.
    pub fn text(&self) -> (r: &str)
        ensures
            r@ == self@.text,
    {
        self.text.as_str()
    }

    /// Character count of the text: the highest valid caret index.
    pub fn len(&self) -> (n: usize)
        ensures
            n == self@.text.len(),
    {
        self.text.as_str().unicode_len()
    }

    /// Whether the field holds no text.
    pub fn is_empty(&self) -> (r: bool)
        ensures
            r == (self@.text.len() == 0),
    {
        self.text.as_str().is_empty()
    }

    /// The caret position, in characters.
    pub fn cursor(&self) -> (at: usize)
        ensures
            at == self@.cursor,
            at <= self@.text.len(),
    {
        proof {
            use_type_invariant(self);
        }
        self.cursor
    }

    /// The selected character range, or `None` when nothing is selected.
    pub fn selection(&self) -> (r: Option<(usize, usize)>)
        ensures
            r is Some == self@.selecting(),
            r matches Some(range) ==> range.0 == self@.low() && range.1 == self@.high() && range.0
                < range.1 <= self@.text.len(),
    {
        proof {
            use_type_invariant(self);
        }
        if self.cursor == self.anchor {
            None
        } else if self.cursor <= self.anchor {
            Some((self.cursor, self.anchor))
        } else {
            Some((self.anchor, self.cursor))
        }
    }

    /// Removes `from..to` of the text and leaves the caret there.
    fn cut(&mut self, from: usize, to: usize)
        requires
            from <= to <= old(self)@.text.len(),
        ensures
            final(self)@ == old(self)@.cut(from as int, to as int),
    {
        proof {
            use_type_invariant(&*self);
        }
        let n: usize = self.text.as_str().unicode_len();
        let mut text = self.text.as_str().substring_char(0, from).to_owned();
        text.append(self.text.as_str().substring_char(to, n));
        proof {
            assert(text@ =~= self.text@.take(from as int) + self.text@.skip(to as int));
        }
        self.cursor = from;
        self.anchor = from;
        self.text = text;
    }

    /// Deletes the selected range if there is one, leaving the caret where the
    /// selection began. Returns whether anything was removed.
    fn delete_selection(&mut self) -> (removed: bool)
        ensures
            final(self)@ == old(self)@.without_selection(),
            removed == old(self)@.selecting(),
    {
        proof {
            use_type_invariant(&*self);
        }
        match self.selection() {
            Some((start, end)) => {
                self.cut(start, end);
                true
            },
            None => false,
        }
    }

    /// Moves the caret, the anchor following it unless the move extends the
    /// selection.
    fn place(&mut self, at: usize, extend: bool)
        requires
            at <= old(self)@.text.len(),
        ensures
            final(self)@ == old(self)@.caret_at(at as int, extend),
    {
        proof {
            use_type_invariant(&*self);
        }
        self.cursor = at;
        if !extend {
            self.anchor = at;
        }
    }

    /// Applies one editing event, returning whether the field changed.
    pub fn apply(&mut self, edit: FieldEdit) -> (changed: bool)
        ensures
            final(self)@ == old(self)@.edited(edit).0,
            changed == old(self)@.edited(edit).1,
            final(self)@.wf(),
    {
        proof {
            use_type_invariant(&*self);
        }
        match edit {
            FieldEdit::Insert(c) => self.insert(c),
            FieldEdit::Backspace => self.backspace(),
            FieldEdit::Delete => self.delete_forward(),
            FieldEdit::Left { extend } => self.move_left(extend),
            FieldEdit::Right { extend } => self.move_right(extend),
            FieldEdit::Home { extend } => self.move_home(extend),
            FieldEdit::End { extend } => self.move_end(extend),
            FieldEdit::SelectAll => self.select_all(),
            FieldEdit::CaretTo { index, extend } => self.caret_to(index, extend),
        }
    }

    /// Types a character, over whatever is selected.
    pub fn insert(&mut self, c: char) -> (changed: bool)
        ensures
            (final(self)@, changed) == old(self)@.typed(c),
            final(self)@.wf(),
    {
        proof {
            use_type_invariant(&*self);
        }
        if !self.filter.accepts(c) {
            return false;
        }
        // Typing over a selection replaces it; the removed span frees room, so
        // the length is checked after the removal, which counts as a change
        // even if the insert is then refused.
        let had_selection: bool = self.delete_selection();
        let n: usize = self.len();
        if n >= self.max_len {
            return had_selection;
        }
        let ghost before = self@;
        let mut text = self.text.as_str().substring_char(0, self.cursor).to_owned();
        text.push(c);
        text.append(self.text.as_str().substring_char(self.cursor, n));
        proof {
            assert(text@ =~= before.text.insert(before.cursor, c));
        }
        self.text = text;
        self.cursor = self.cursor + 1;
        self.anchor = self.cursor;
        true
    }

    /// Removes the selection, or the character left of the caret.
    pub fn backspace(&mut self) -> (changed: bool)
        ensures
            (final(self)@, changed) == old(self)@.edited(FieldEdit::Backspace),
            final(self)@.wf(),
    {
        proof {
            use_type_invariant(&*self);
        }
        if self.delete_selection() {
            return true;
        }
        if self.cursor == 0 {
            return false;
        }
        self.cut(self.cursor - 1, self.cursor);
        true
    }

    fn delete_forward(&mut self) -> (changed: bool)
        ensures
            (final(self)@, changed) == old(self)@.edited(FieldEdit::Delete),
            final(self)@.wf(),
    {
        proof {
            use_type_invariant(&*self);
        }
        if self.delete_selection() {
            return true;
        }
        if self.cursor >= self.len() {
            return false;
        }
        self.cut(self.cursor, self.cursor + 1);
        true
    }

    fn move_left(&mut self, extend: bool) -> (changed: bool)
        ensures
            (final(self)@, changed) == old(self)@.edited(FieldEdit::Left { extend }),
            final(self)@.wf(),
    {
        proof {
            use_type_invariant(&*self);
        }
        if !extend {
            match self.selection() {
                Some((start, _)) => {
                    self.place(start, false);
                    return true;
                },
                None => {},
            }
        }
        if self.cursor == 0 {
            return false;
        }
        self.place(self.cursor - 1, extend);
        true
    }

    fn move_right(&mut self, extend: bool) -> (changed: bool)
        ensures
            (final(self)@, changed) == old(self)@.edited(FieldEdit::Right { extend }),
            final(self)@.wf(),
    {
        proof {
            use_type_invariant(&*self);
        }
        if !extend {
            match self.selection() {
                Some((_, end)) => {
                    self.place(end, false);
                    return true;
                },
                None => {},
            }
        }
        if self.cursor >= self.len() {
            return false;
        }
        self.place(self.cursor + 1, extend);
        true
    }

    fn move_home(&mut self, extend: bool) -> (changed: bool)
        ensures
            (final(self)@, changed) == old(self)@.edited(FieldEdit::Home { extend }),
            final(self)@.wf(),
    {
        proof {
            use_type_invariant(&*self);
        }
        let changed: bool = self.cursor != 0 || (!extend && self.anchor != 0);
        self.place(0, extend);
        changed
    }

    fn move_end(&mut self, extend: bool) -> (changed: bool)
        ensures
            (final(self)@, changed) == old(self)@.edited(FieldEdit::End { extend }),
            final(self)@.wf(),
    {
        proof {
            use_type_invariant(&*self);
        }
        let end: usize = self.len();
        let changed: bool = self.cursor != end || (!extend && self.anchor != end);
        self.place(end, extend);
        changed
    }

    fn select_all(&mut self) -> (changed: bool)
        ensures
            (final(self)@, changed) == old(self)@.edited(FieldEdit::SelectAll),
            final(self)@.wf(),
    {
        proof {
            use_type_invariant(&*self);
        }
        if self.is_empty() {
            return false;
        }
        let end: usize = self.len();
        let changed: bool = self.anchor != 0 || self.cursor != end;
        self.anchor = 0;
        self.cursor = end;
        changed
    }

    /// Places the caret at a character index, brought into range first.
    fn caret_to(&mut self, index: usize, extend: bool) -> (changed: bool)
        ensures
            (final(self)@, changed) == old(self)@.edited(FieldEdit::CaretTo { index, extend }),
            final(self)@.wf(),
    {
        proof {
            use_type_invariant(&*self);
        }
        let len: usize = self.len();
        let at: usize = if index <= len {
            index
        } else {
            len
        };
        let changed: bool = at != self.cursor || (!extend && self.anchor != at);
        self.place(at, extend);
        changed
    }
}

/// Whether every character of the text is one the field accepts.
pub open spec fn is_admitted(f: FieldView) -> bool {
    forall|i: int| 0 <= i < f.text.len() ==> f.filter.admits(#[trigger] f.text[i])
}

/// An edit keeps the indices in range, the filter and the length limit; it
/// never puts in a character the filter refuses, and never makes a field longer
/// than its limit.
pub proof fn edits_keep_the_field_valid(f: FieldView, edit: FieldEdit)
    requires
        f.wf(),
    ensures
        f.edited(edit).0.wf(),
        f.edited(edit).0.filter == f.filter,
        f.edited(edit).0.max_len == f.max_len,
        is_admitted(f) ==> is_admitted(f.edited(edit).0),
        f.text.len() <= f.max_len ==> f.edited(edit).0.text.len() <= f.max_len,
        f.edited(edit).0.text.len() <= f.text.len() + 1,
{
    let after = f.edited(edit).0;
    if is_admitted(f) {
        assert forall|i: int| 0 <= i < after.text.len() implies after.filter.admits(
            #[trigger] after.text[i],
        ) by {
            match edit {
                FieldEdit::Insert(c) => {
                    let rest = f.without_selection();
                    if f.filter.admits(c) && rest.text.len() < f.max_len {
                        if i < rest.cursor {
                            assert(after.text[i] == rest.text[i]);
                        } else if i > rest.cursor {
                            assert(after.text[i] == rest.text[i - 1]);
                        }
                    }
                    cutting_keeps_characters(f, f.low(), f.high());
                },
                FieldEdit::Backspace => {
                    if f.selecting() {
                        cutting_keeps_characters(f, f.low(), f.high());
                    } else if f.cursor > 0 {
                        cutting_keeps_characters(f, f.cursor - 1, f.cursor);
                    }
                },
                FieldEdit::Delete => {
                    if f.selecting() {
                        cutting_keeps_characters(f, f.low(), f.high());
                    } else if f.cursor < f.text.len() {
                        cutting_keeps_characters(f, f.cursor, f.cursor + 1);
                    }
                },
                _ => {},
            }
        }
    }
}

proof fn cutting_keeps_characters(f: FieldView, from: int, to: int)
    requires
        0 <= from <= to <= f.text.len(),
        is_admitted(f),
    ensures
        is_admitted(f.cut(from, to)),
{
    let after = f.cut(from, to);
    assert forall|i: int| 0 <= i < after.text.len() implies after.filter.admits(
        #[trigger] after.text[i],
    ) by {
        if i < from {
            assert(after.text[i] == f.text[i]);
        } else {
            assert(after.text[i] == f.text[i + (to - from)]);
        }
    }
}

/// A field that only admits digits and starts with digits holds digits.
pub proof fn a_digit_field_holds_digits(f: FieldView)
    requires
        f.filter is Digits,
    ensures
        is_admitted(f) == all_digits(f.text),
{
    if is_admitted(f) {
        assert forall|i: int| 0 <= i < f.text.len() implies is_digit(#[trigger] f.text[i]) by {
            assert(f.filter.admits(f.text[i]));
        }
    }
    if all_digits(f.text) {
        assert forall|i: int| 0 <= i < f.text.len() implies f.filter.admits(
            #[trigger] f.text[i],
        ) by {
            assert(is_digit(f.text[i]));
        }
    }
}

/// Backspace takes back what was just typed and reports it: the text and the
/// caret are as they were, once whatever was selected is gone. Where nothing
/// was selected the field is exactly what it was.
pub proof fn backspace_undoes_typing(f: FieldView, c: char)
    requires
        f.wf(),
        f.filter.admits(c),
        f.without_selection().text.len() < f.max_len,
    ensures
        ({
            let typed = f.edited(FieldEdit::Insert(c));
            let back = typed.0.edited(FieldEdit::Backspace);
            &&& typed.1
            &&& back.1
            &&& back.0 == (FieldView {
                anchor: f.without_selection().cursor,
                ..f.without_selection()
            })
            &&& !f.selecting() ==> back.0 == f
        }),
{
    let rest = f.without_selection();
    let back = f.typed(c).0.edited(FieldEdit::Backspace).0;
    assert(back.text =~= rest.text);
}

/// Typing with everything selected leaves just the character typed.
pub proof fn typing_replaces_the_selection(f: FieldView, c: char)
    requires
        f.wf(),
        f.filter.admits(c),
        f.max_len > 0,
        f.low() == 0,
        f.high() == f.text.len(),
        f.selecting(),
    ensures
        f.typed(c).0.text == seq![c],
        !f.typed(c).0.selecting(),
        f.typed(c).0.cursor == 1,
{
    assert(f.without_selection().text =~= seq![]);
    assert(f.typed(c).0.text =~= seq![c]);
}

/// Caret moves never touch the text, and the ones that extend never touch the
/// anchor.
pub proof fn caret_moves_keep_the_text(f: FieldView, edit: FieldEdit)
    requires
        f.wf(),
        !(edit is Insert || edit is Backspace || edit is Delete),
    ensures
        f.edited(edit).0.text == f.text,
        (edit == (FieldEdit::Left { extend: true }) || edit == (FieldEdit::Right { extend: true })
            || edit == (FieldEdit::Home { extend: true }) || edit == (FieldEdit::End {
            extend: true,
        })) ==> f.edited(edit).0.anchor == f.anchor,
        (edit == (FieldEdit::Left { extend: false }) || edit == (FieldEdit::Right { extend: false })
            || edit == (FieldEdit::Home { extend: false }) || edit == (FieldEdit::End {
            extend: false,
        })) ==> !f.edited(edit).0.selecting(),
{
}

/// What an edit reports is what it did: it reports a change exactly when the
/// field is not what it was.
pub proof fn an_edit_reports_what_it_did(f: FieldView, edit: FieldEdit)
    requires
        f.wf(),
    ensures
        f.edited(edit).1 == (f.edited(edit).0 != f),
{
    let after = f.edited(edit).0;
    match edit {
        FieldEdit::Insert(_) => {
            if !f.edited(edit).1 {
                assert(after.text =~= f.text);
            }
        },
        _ => {},
    }
}

/// Delete takes the character to the right of a bare caret and nothing else:
/// the caret stays, what stood before it stays, and what stood after it is
/// what it was without its first character. At the end there is none to take.
pub proof fn delete_takes_the_character_after_the_caret(f: FieldView)
    requires
        f.wf(),
        f.cursor == f.anchor,
    ensures
        ({
            let (after, changed) = f.edited(FieldEdit::Delete);
            if f.cursor < f.text.len() {
                &&& changed
                &&& after.cursor == f.cursor
                &&& after.anchor == f.cursor
                &&& after.text.take(f.cursor) == f.text.take(f.cursor)
                &&& after.text.skip(f.cursor) == f.text.skip(f.cursor + 1)
            } else {
                !changed && after == f
            }
        }),
{
    let after = f.edited(FieldEdit::Delete).0;
    if f.cursor < f.text.len() {
        assert(after.text.take(f.cursor) =~= f.text.take(f.cursor));
        assert(after.text.skip(f.cursor) =~= f.text.skip(f.cursor + 1));
    }
}

/// Backspace takes the character to the left of a bare caret and nothing else:
/// what stood after the caret stays, and what stood before it is what it was
/// without its last character, where the caret now is. At the start there is
/// none to take.
pub proof fn backspace_takes_the_character_before_the_caret(f: FieldView)
    requires
        f.wf(),
        f.cursor == f.anchor,
    ensures
        ({
            let (after, changed) = f.edited(FieldEdit::Backspace);
            if f.cursor > 0 {
                &&& changed
                &&& after.cursor == f.cursor - 1
                &&& after.anchor == f.cursor - 1
                &&& after.text.take(f.cursor - 1) == f.text.take(f.cursor - 1)
                &&& after.text.skip(f.cursor - 1) == f.text.skip(f.cursor)
            } else {
                !changed && after == f
            }
        }),
{
    let after = f.edited(FieldEdit::Backspace).0;
    if f.cursor > 0 {
        assert(after.text.take(f.cursor - 1) =~= f.text.take(f.cursor - 1));
        assert(after.text.skip(f.cursor - 1) =~= f.text.skip(f.cursor));
    }
}

/// Delete with the caret before a character does what Backspace does with the
/// caret after it.
pub proof fn delete_is_backspace_from_the_other_side(f: FieldView)
    requires
        f.wf(),
        f.cursor == f.anchor,
        f.cursor < f.text.len(),
    ensures
        f.edited(FieldEdit::Delete).0 == f.edited(FieldEdit::Right { extend: false }).0.edited(
            FieldEdit::Backspace,
        ).0,
{
}

/// Both keys take a selection whole, whichever end the caret is at: what stood
/// on either side of it stays, and the caret is where the two now meet.
pub proof fn deleting_takes_the_selection_whole(f: FieldView, edit: FieldEdit, from: int, to: int)
    requires
        f.wf(),
        edit is Backspace || edit is Delete,
        from < to,
        (f.cursor == from && f.anchor == to) || (f.cursor == to && f.anchor == from),
    ensures
        ({
            let (after, changed) = f.edited(edit);
            &&& changed
            &&& after.cursor == from
            &&& after.anchor == from
            &&& after.text.take(from) == f.text.take(from)
            &&& after.text.skip(from) == f.text.skip(to)
        }),
{
    let after = f.edited(edit).0;
    assert(after.text.take(from) =~= f.text.take(from));
    assert(after.text.skip(from) =~= f.text.skip(to));
}

/// A character typed into a field with room goes in at the caret, in the place
/// of whatever was selected: the text up to the near edge of the selection
/// stays before it, the text from the far edge on stays after it, and the caret
/// is behind it with nothing selected.
pub proof fn typing_goes_in_at_the_caret(f: FieldView, c: char, from: int, to: int)
    requires
        f.wf(),
        '0' <= c <= '9',
        from <= to,
        (f.cursor == from && f.anchor == to) || (f.cursor == to && f.anchor == from),
        f.text.len() - (to - from) < f.max_len,
    ensures
        ({
            let (after, changed) = f.edited(FieldEdit::Insert(c));
            &&& changed
            &&& after.cursor == from + 1
            &&& after.anchor == from + 1
            &&& after.text.take(from) == f.text.take(from)
            &&& after.text[from] == c
            &&& after.text.skip(from + 1) == f.text.skip(to)
        }),
{
    let after = f.edited(FieldEdit::Insert(c)).0;
    assert(after.text.take(from) =~= f.text.take(from));
    assert(after.text.skip(from + 1) =~= f.text.skip(to));
}

/// A character that is not a decimal digit leaves the field as it was, the
/// selection included.
pub proof fn only_digits_go_in(f: FieldView, c: char)
    requires
        f.wf(),
        !('0' <= c <= '9'),
    ensures
        f.edited(FieldEdit::Insert(c)) == (f, false),
{
}

/// A field that stays full without its selection takes no character; the
/// selection it was typed over is gone all the same.
pub proof fn a_full_field_takes_no_more(f: FieldView, c: char, from: int, to: int)
    requires
        f.wf(),
        '0' <= c <= '9',
        from <= to,
        (f.cursor == from && f.anchor == to) || (f.cursor == to && f.anchor == from),
        f.text.len() - (to - from) >= f.max_len,
    ensures
        ({
            let (after, changed) = f.edited(FieldEdit::Insert(c));
            &&& changed == (from < to)
            &&& after.cursor == from
            &&& after.anchor == from
            &&& after.text == f.text.take(from) + f.text.skip(to)
        }),
{
    let after = f.edited(FieldEdit::Insert(c)).0;
    assert(f.text =~= f.text.take(from) + f.text.skip(from));
    assert(after.text =~= f.text.take(from) + f.text.skip(to));
}

/// An arrow moves a bare caret, or one that extends, by one character and no
/// further than the end it is moving to; the anchor follows unless the move
/// extends.
pub proof fn an_arrow_moves_by_one_character(f: FieldView, extend: bool)
    requires
        f.wf(),
        extend || f.cursor == f.anchor,
    ensures
        ({
            let left = f.edited(FieldEdit::Left { extend });
            &&& left.0.text == f.text
            &&& left.1 == (f.cursor > 0)
            &&& f.cursor > 0 ==> left.0.cursor == f.cursor - 1
            &&& f.cursor == 0 ==> left.0.cursor == 0
            &&& left.0.anchor == if extend {
                f.anchor
            } else {
                left.0.cursor
            }
        }),
        ({
            let right = f.edited(FieldEdit::Right { extend });
            &&& right.0.text == f.text
            &&& right.1 == (f.cursor < f.text.len())
            &&& f.cursor < f.text.len() ==> right.0.cursor == f.cursor + 1
            &&& f.cursor == f.text.len() ==> right.0.cursor == f.cursor
            &&& right.0.anchor == if extend {
                f.anchor
            } else {
                right.0.cursor
            }
        }),
{
}

/// An arrow without Shift against a selection drops it at the edge the arrow
/// points to: the left arrow at the near edge, the right arrow at the far one,
/// whichever of them the caret was at.
pub proof fn an_arrow_drops_the_selection_at_its_edge(f: FieldView, from: int, to: int)
    requires
        f.wf(),
        from < to,
        (f.cursor == from && f.anchor == to) || (f.cursor == to && f.anchor == from),
    ensures
        f.edited(FieldEdit::Left { extend: false }) == (
            FieldView { cursor: from, anchor: from, ..f },
            true,
        ),
        f.edited(FieldEdit::Right { extend: false }) == (
            FieldView { cursor: to, anchor: to, ..f },
            true,
        ),
{
}

/// Home and End go to the two ends of the text, and a click to the character it
/// names or to the end when there is none; the anchor follows the caret unless
/// the move extends.
pub proof fn a_jump_lands_where_it_says(f: FieldView, index: usize, extend: bool)
    requires
        f.wf(),
    ensures
        ({
            let home = f.edited(FieldEdit::Home { extend }).0;
            &&& home.text == f.text
            &&& home.cursor == 0
            &&& home.anchor == if extend {
                f.anchor
            } else {
                0
            }
        }),
        ({
            let end = f.edited(FieldEdit::End { extend }).0;
            &&& end.text == f.text
            &&& end.cursor == f.text.len()
            &&& end.anchor == if extend {
                f.anchor
            } else {
                f.text.len() as int
            }
        }),
        ({
            let to = f.edited(FieldEdit::CaretTo { index, extend }).0;
            &&& to.text == f.text
            &&& index <= f.text.len() ==> to.cursor == index
            &&& index > f.text.len() ==> to.cursor == f.text.len()
            &&& to.anchor == if extend {
                f.anchor
            } else {
                to.cursor
            }
        }),
{
}

/// Select-all selects the text from its start with the caret at its end, so
/// that the next character typed replaces all of it.
pub proof fn select_all_selects_the_whole_text(f: FieldView)
    requires
        f.wf(),
    ensures
        ({
            let all = f.edited(FieldEdit::SelectAll).0;
            &&& all.text == f.text
            &&& all.anchor == 0
            &&& all.cursor == f.text.len()
        }),
        f.edited(FieldEdit::SelectAll).0.edited(FieldEdit::Delete).0.text.len() == 0,
{
}

/// A new field holds its text with the caret behind it and nothing selected,
/// and the selection of a field runs from the nearer of its two indices to the
/// further.
pub proof fn a_selection_runs_between_the_two_indices(f: FieldView)
    ensures
        f.low() <= f.cursor <= f.high(),
        f.low() <= f.anchor <= f.high(),
        f.low() == f.cursor || f.low() == f.anchor,
        f.high() == f.cursor || f.high() == f.anchor,
        f.selecting() <==> f.low() < f.high(),
        FieldView::holding(f.text, f.filter, f.max_len).text == f.text,
        FieldView::holding(f.text, f.filter, f.max_len).cursor == f.text.len(),
        !FieldView::holding(f.text, f.filter, f.max_len).selecting(),
        FieldView::holding(f.text, f.filter, f.max_len).max_len == f.max_len,
{
}

} // verus!
