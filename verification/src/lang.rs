//! The texts of the interface in one language.

use crate::strings::Key;
use vstd::prelude::*;
use vstd::string::*;

verus! {

/// The texts of one language, each under the name it is asked for by.
#[derive(Debug)]
pub struct Locale {
    pub texts: Vec<(Key, String)>,
}

/// The first text listed under `key`; empty when none is.
pub open spec fn listed(texts: Seq<(Key, String)>, key: Key) -> Seq<char>
    decreases texts.len(),
{
    if texts.len() == 0 {
        seq![]
    } else if texts[0].0 == key {
        texts[0].1@
    } else {
        listed(texts.skip(1), key)
    }
}

/// `text` with its first `{}` replaced by `arg`; `text` itself when it has
/// none.
pub open spec fn filled(text: Seq<char>, arg: Seq<char>) -> Seq<char>
    decreases text.len(),
{
    if text.len() < 2 {
        text
    } else if text[0] == '{' && text[1] == '}' {
        arg + text.skip(2)
    } else {
        seq![text[0]] + filled(text.skip(1), arg)
    }
}

impl Locale {
    /// The text of `key` in this language.
    pub open spec fn text(self, key: Key) -> Seq<char> {
        listed(self.texts@, key)
    }

    /// The text of `key` in this language, empty when the language lacks it.
    pub fn t(&self, key: Key) -> (r: &str)
        ensures
            r@ == self.text(key),
    {
        let mut i: usize = 0;
        proof {
            assert(self.texts@.skip(0) =~= self.texts@);
        }
        while i < self.texts.len()
            invariant
                i <= self.texts@.len(),
                self.text(key) == listed(self.texts@.skip(i as int), key),
            decreases self.texts.len() - i,
        {
            if self.texts[i].0 == key {
                return self.texts[i].1.as_str();
            }
            proof {
                assert(self.texts@.skip(i as int).skip(1) =~= self.texts@.skip(i + 1));
            }
            i = i + 1;
        }
        proof {
            reveal_strlit("");
            assert(""@ =~= Seq::<char>::empty());
        }
        ""
    }

    /// The text of `key` as an owned string.
    pub fn own(&self, key: Key) -> (r: String)
        ensures
            r@ == self.text(key),
    {
        self.t(key).to_owned()
    }

    /// The text of `key` with `arg` put where it leaves room for it.
    pub fn t1(&self, key: Key, arg: &str) -> (r: String)
        ensures
            r@ == filled(self.text(key), arg@),
    {
        let text = self.t(key);
        let n: usize = text.unicode_len();
        let mut done = String::new();
        let mut i: usize = 0;
        proof {
            assert(text@.skip(0) =~= text@);
            assert(done@ + filled(text@, arg@) =~= filled(text@, arg@));
        }
        while n - i >= 2
            invariant
                i <= n,
                text@ == self.text(key),
                n == text@.len(),
                filled(text@, arg@) == done@ + filled(text@.skip(i as int), arg@),
            decreases n - i,
        {
            let ghost rest = text@.skip(i as int);
            let ch: char = text.get_char(i);
            if ch == '{' && text.get_char(i + 1) == '}' {
                done.append(arg);
                done.append(text.substring_char(i + 2, n));
                proof {
                    assert(rest.skip(2) =~= text@.skip(i + 2));
                    assert(text@.subrange(i + 2, n as int) =~= text@.skip(i + 2));
                    assert(done@ =~= filled(text@, arg@));
                }
                return done;
            }
            let ghost before = done@;
            done.push(ch);
            proof {
                assert(rest.skip(1) =~= text@.skip(i + 1));
                assert(done@ + filled(rest.skip(1), arg@) =~= before + (seq![ch] + filled(
                    rest.skip(1),
                    arg@,
                )));
            }
            i = i + 1;
        }
        done.append(text.substring_char(i, n));
        proof {
            assert(text@.subrange(i as int, n as int) =~= text@.skip(i as int));
        }
        done
    }
}

/// A text stands under its own name: the first listed under it is the one that
/// is found, and a name that is not listed has none.
pub proof fn a_text_is_found_under_its_name(locale: Locale, key: Key, i: int)
    requires
        0 <= i < locale.texts@.len(),
        locale.texts@[i].0 == key,
        forall|j: int| 0 <= j < i ==> (#[trigger] locale.texts@[j]).0 != key,
    ensures
        locale.text(key) == locale.texts@[i].1@,
{
    the_first_listed_is_found(locale.texts@, key, i);
}

proof fn the_first_listed_is_found(texts: Seq<(Key, String)>, key: Key, i: int)
    requires
        0 <= i < texts.len(),
        texts[i].0 == key,
        forall|j: int| 0 <= j < i ==> (#[trigger] texts[j]).0 != key,
    ensures
        listed(texts, key) == texts[i].1@,
    decreases texts.len(),
{
    if i > 0 {
        assert(texts[0].0 != key);
        assert forall|j: int| 0 <= j < i - 1 implies (#[trigger] texts.skip(1)[j]).0 != key by {
            assert(texts[j + 1].0 != key);
        }
        the_first_listed_is_found(texts.skip(1), key, i - 1);
    }
}

/// A name that no text is listed under has an empty text.
pub proof fn an_unlisted_name_has_no_text(locale: Locale, key: Key)
    requires
        forall|j: int| 0 <= j < locale.texts@.len() ==> (#[trigger] locale.texts@[j]).0 != key,
    ensures
        locale.text(key).len() == 0,
{
    nothing_listed_is_empty(locale.texts@, key);
}

proof fn nothing_listed_is_empty(texts: Seq<(Key, String)>, key: Key)
    requires
        forall|j: int| 0 <= j < texts.len() ==> (#[trigger] texts[j]).0 != key,
    ensures
        listed(texts, key).len() == 0,
    decreases texts.len(),
{
    if texts.len() > 0 {
        assert(texts[0].0 != key);
        assert forall|j: int| 0 <= j < texts.len() - 1 implies (#[trigger] texts.skip(1)[j]).0
            != key by {
            assert(texts[j + 1].0 != key);
        }
        nothing_listed_is_empty(texts.skip(1), key);
    }
}

/// Whether `{}` stands at `i` in `text`.
pub open spec fn room_at(text: Seq<char>, i: int) -> bool {
    0 <= i && i + 1 < text.len() && text[i] == '{' && text[i + 1] == '}'
}

/// An argument goes exactly where the first room for it is, and what stands on
/// either side stays.
pub proof fn an_argument_goes_into_the_first_room(text: Seq<char>, arg: Seq<char>, i: int)
    requires
        room_at(text, i),
        forall|j: int| 0 <= j < i ==> !#[trigger] room_at(text, j),
    ensures
        filled(text, arg) == text.take(i) + arg + text.skip(i + 2),
    decreases text.len(),
{
    if i == 0 {
        assert(text.take(0) + arg + text.skip(2) =~= arg + text.skip(2));
    } else {
        assert(!room_at(text, 0));
        let rest = text.skip(1);
        assert forall|j: int| 0 <= j < i - 1 implies !#[trigger] room_at(rest, j) by {
            assert(!room_at(text, j + 1));
        }
        an_argument_goes_into_the_first_room(rest, arg, i - 1);
        assert(seq![text[0]] + (rest.take(i - 1) + arg + rest.skip(i + 1)) =~= text.take(i) + arg
            + text.skip(i + 2));
    }
}

/// A text with no room for an argument is as it is with one.
pub proof fn a_text_without_room_takes_no_argument(text: Seq<char>, arg: Seq<char>)
    requires
        forall|j: int| 0 <= j < text.len() ==> !#[trigger] room_at(text, j),
    ensures
        filled(text, arg) == text,
    decreases text.len(),
{
    if text.len() >= 2 {
        assert(!room_at(text, 0));
        let rest = text.skip(1);
        assert forall|j: int| 0 <= j < rest.len() implies !#[trigger] room_at(rest, j) by {
            assert(!room_at(text, j + 1));
        }
        a_text_without_room_takes_no_argument(rest, arg);
        assert(seq![text[0]] + rest =~= text);
    }
}

} // verus!
