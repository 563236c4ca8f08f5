//! Words of a line: the model, and the cursor that produces them one by one.
//!
//! A line is a sequence of characters. A word that starts with a quote runs
//! from the character after it up to the next quote, or to the end of the line
//! where no quote follows. Any other word runs up to the first whitespace
//! character. Whitespace after a word is dropped.

use vstd::prelude::*;
use vstd::string::StrSliceExecFns;
use crate::chars::{is_whitespace, Class, QUOTE};
use crate::scan::{find, lemma_offset_of, offset_of};

verus! {

/// Whether the text starts with a quote, and so with a quoted word.
pub open spec fn starts_quoted(s: Seq<char>) -> bool {
    s.len() > 0 && s[0] == QUOTE
}

/// Offset at which the first word of a nonempty `s` starts.
pub open spec fn word_start(s: Seq<char>) -> int {
    if starts_quoted(s) {
        1
    } else {
        0
    }
}

/// Offset at which the first word of a nonempty `s` ends: the closing quote
/// or the first whitespace character, or the end of `s`.
pub open spec fn word_end(s: Seq<char>) -> int {
    if starts_quoted(s) {
        offset_of(s, Class::Quote, 1)
    } else {
        offset_of(s, Class::Space, 0)
    }
}

/// Offset up to which the first word of a nonempty `s` uses `s` up: a closing
/// quote goes with its word.
pub open spec fn word_consumed(s: Seq<char>) -> int {
    if starts_quoted(s) && word_end(s) < s.len() {
        word_end(s) + 1
    } else {
        word_end(s)
    }
}

/// The first word of a nonempty `s`.
pub open spec fn first_word(s: Seq<char>) -> Seq<char> {
    s.subrange(word_start(s), word_end(s))
}

/// What is left of a nonempty `s` after its first word and the whitespace
/// that follows the word.
pub open spec fn after_first_word(s: Seq<char>) -> Seq<char> {
    s.subrange(offset_of(s, Class::Text, word_consumed(s)), s.len() as int)
}

/// The offsets of the first word lie in order inside `s`.
pub proof fn lemma_word_bounds(s: Seq<char>)
    requires
        s.len() > 0,
    ensures
        0 <= word_start(s) <= word_end(s) <= word_consumed(s) <= offset_of(
            s,
            Class::Text,
            word_consumed(s),
        ) <= s.len(),
        0 < offset_of(s, Class::Text, word_consumed(s)),
        after_first_word(s).len() < s.len(),
{
    lemma_offset_of(s, Class::Quote, 1);
    lemma_offset_of(s, Class::Space, 0);
    lemma_offset_of(s, Class::Text, word_consumed(s));
}

/// All the words of `s`, in order.
pub open spec fn words(s: Seq<char>) -> Seq<Seq<char>>
    decreases s.len(),
{
    if s.len() == 0 {
        Seq::empty()
    } else {
        proof {
            lemma_word_bounds(s);
        }
        seq![first_word(s)] + words(after_first_word(s))
    }
}

/// A quoted word holds no quote.
pub proof fn lemma_quoted_word_holds_no_quote(s: Seq<char>)
    requires
        starts_quoted(s),
    ensures
        forall|i: int| 0 <= i < first_word(s).len() ==> #[trigger] first_word(s)[i] != QUOTE,
{
    lemma_offset_of(s, Class::Quote, 1);
}

/// A word that starts with no quote holds no whitespace.
pub proof fn lemma_bare_word_holds_no_space(s: Seq<char>)
    requires
        s.len() > 0,
        !starts_quoted(s),
    ensures
        forall|i: int|
            0 <= i < first_word(s).len() ==> !is_whitespace(#[trigger] first_word(s)[i]),
{
    lemma_offset_of(s, Class::Space, 0);
}

/// Where no quote follows the opening one, the word is all the text after
/// the opening quote, and nothing is left after it.
pub proof fn lemma_unterminated_quote(s: Seq<char>)
    requires
        starts_quoted(s),
        forall|i: int| 1 <= i < s.len() ==> #[trigger] s[i] != QUOTE,
    ensures
        first_word(s) == s.skip(1),
        after_first_word(s).len() == 0,
        words(s) == seq![s.skip(1)],
{
    lemma_offset_of(s, Class::Quote, 1);
    assert(words(after_first_word(s)) == Seq::<Seq<char>>::empty());
}

/// What is left after a word does not start with whitespace.
pub proof fn lemma_rest_starts_with_word(s: Seq<char>)
    requires
        s.len() > 0,
    ensures
        after_first_word(s).len() > 0 ==> !is_whitespace(after_first_word(s)[0]),
{
    lemma_word_bounds(s);
    lemma_offset_of(s, Class::Text, word_consumed(s));
}

/// The text of each string of `v`, in order.
pub open spec fn texts(v: Seq<&str>) -> Seq<Seq<char>> {
    Seq::new(v.len(), |i: int| v[i]@)
}

/// A cursor over the text of a line that is still to be split into words.
#[derive(Debug, PartialEq, Eq)]
pub struct WordIter<'a> {
    input: &'a str,
}

impl<'a> View for WordIter<'a> {
    type V = Seq<char>;

    /// The text that is still to be split.
    closed spec fn view(&self) -> Seq<char> {
        self.input@
    }
}

impl<'a> WordIter<'a> {
    /// A cursor at the start of `input`.
    pub fn new(input: &'a str) -> (it: Self)
        ensures
            it@ == input@,
    {
        WordIter { input }
    }

    /// The text that is still to be split.
    pub fn remaining(&self) -> (rest: &'a str)
        ensures
            rest@ == self@,
    {
        self.input
    }

    /// Takes the next word off the text, with the whitespace that follows it.
    /// Gives `None`, and leaves the cursor as it is, when no text is left.
    pub fn next(&mut self) -> (word: Option<&'a str>)
        ensures
            old(self)@.len() == 0 ==> word is None && final(self)@ == old(self)@,
            old(self)@.len() > 0 ==> word is Some && word->0@ == first_word(old(self)@)
                && final(self)@ == after_first_word(old(self)@),
    {
        let text: &'a str = self.input;
        if text.is_empty() {
            return None;
        }
        let len: usize = text.unicode_len();
        proof {
            lemma_word_bounds(text@);
        }
        let quoted: bool = text.get_char(0) == QUOTE;
        let start: usize = if quoted {
            1
        } else {
            0
        };
        let end: usize = if quoted {
            find(text, Class::Quote, 1)
        } else {
            find(text, Class::Space, 0)
        };
        let consumed: usize = if quoted && end < len {
            end + 1
        } else {
            end
        };
        let next_start: usize = find(text, Class::Text, consumed);
        self.input = text.substring_char(next_start, len);
        Some(text.substring_char(start, end))
    }

    /// Takes all the words that are left, in order.
    pub fn collect(self) -> (out: Vec<&'a str>)
        ensures
            texts(out@) == words(self@),
    {
        let mut it = self;
        let mut out: Vec<&'a str> = Vec::new();
        loop
            invariant
                texts(out@) + words(it@) == words(self@),
            ensures
                it@.len() == 0,
            decreases it@.len(),
        {
            proof {
                if it@.len() > 0 {
                    lemma_word_bounds(it@);
                }
            }
            match it.next() {
                Some(word) => out.push(word),
                None => break ,
            }
        }
        out
    }
}

/// Splits a line into its words.
pub fn tokenize<'a>(line: &'a str) -> (out: Vec<&'a str>)
    ensures
        texts(out@) == words(line@),
{
    WordIter::new(line).collect()
}

} // verus!
