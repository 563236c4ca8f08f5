//! Splitting on whitespace, and how the words of a line without quotes
//! relate to it.

use vstd::prelude::*;
use crate::chars::{is_whitespace, Class, QUOTE};
use crate::scan::{lemma_offset_of, lemma_offset_of_is, offset_of};
use crate::trim::{lemma_text_end, text_end, trimmed, trimmed_end, trimmed_start};
use crate::words::{after_first_word, first_word, words};

verus! {

/// The pieces of `s` that its whitespace characters part: the text before
/// the first of them, the text between each and the next, and the text after
/// the last. Between two neighbours, and at either end, a piece is empty.
pub open spec fn pieces(s: Seq<char>) -> Seq<Seq<char>>
    decreases s.len(),
{
    let at = offset_of(s, Class::Space, 0);
    if at >= s.len() {
        seq![s]
    } else {
        proof {
            lemma_offset_of(s, Class::Space, 0);
        }
        seq![s.take(at)] + pieces(s.skip(at + 1))
    }
}

/// The test that keeps a piece: it holds a character.
pub open spec fn kept() -> spec_fn(Seq<char>) -> bool {
    |piece: Seq<char>| piece.len() > 0
}

/// `s` split on its runs of whitespace: the pieces that are not empty.
pub open spec fn split_whitespace(s: Seq<char>) -> Seq<Seq<char>> {
    pieces(s).filter(kept())
}

/// Whether `s` holds no quote.
pub open spec fn quote_free(s: Seq<char>) -> bool {
    forall|i: int| 0 <= i < s.len() ==> #[trigger] s[i] != QUOTE
}

/// Whether `s` starts with a whitespace character.
pub open spec fn starts_with_space(s: Seq<char>) -> bool {
    s.len() > 0 && is_whitespace(s[0])
}

/// Filtering a single piece keeps it or drops it.
proof fn lemma_filter_one(piece: Seq<char>)
    ensures
        seq![piece].filter(kept()) == if piece.len() > 0 {
            seq![piece]
        } else {
            Seq::<Seq<char>>::empty()
        },
{
    reveal_with_fuel(Seq::filter, 2);
}

/// A whitespace character at the start adds nothing to the split.
proof fn lemma_split_drops_first_space(s: Seq<char>)
    requires
        starts_with_space(s),
    ensures
        split_whitespace(s) == split_whitespace(s.skip(1)),
{
    lemma_filter_one(s.take(0));
}

/// Whitespace at the start adds nothing to the split.
proof fn lemma_split_drops_leading_space(s: Seq<char>, from: int)
    requires
        0 <= from <= s.len(),
    ensures
        split_whitespace(s.skip(from)) == split_whitespace(
            s.skip(offset_of(s, Class::Text, from)),
        ),
    decreases s.len() - from,
{
    if from < s.len() && is_whitespace(s[from]) {
        lemma_split_drops_first_space(s.skip(from));
        assert(s.skip(from).skip(1) == s.skip(from + 1));
        lemma_split_drops_leading_space(s, from + 1);
    }
}

/// The words of a text without quotes that does not start with whitespace
/// are the text split on its runs of whitespace.
pub proof fn lemma_words_split_whitespace(s: Seq<char>)
    requires
        quote_free(s),
        !starts_with_space(s),
    ensures
        words(s) == split_whitespace(s),
    decreases s.len(),
{
    if s.len() == 0 {
        lemma_filter_one(s);
    } else {
        let end = offset_of(s, Class::Space, 0);
        lemma_offset_of(s, Class::Space, 0);
        lemma_offset_of(s, Class::Text, end);
        lemma_words_split_whitespace(after_first_word(s));
        lemma_filter_one(s.take(end));
        if end == s.len() {
            assert(s.take(end) == s);
        } else {
            lemma_split_drops_leading_space(s, end + 1);
        }
    }
}

/// The words of a text without quotes are the text split on its runs of
/// whitespace, after one empty word where the text starts with whitespace.
pub proof fn lemma_words_of_plain_text(s: Seq<char>)
    requires
        quote_free(s),
    ensures
        words(s) == if starts_with_space(s) {
            seq![Seq::<char>::empty()] + split_whitespace(s)
        } else {
            split_whitespace(s)
        },
{
    if starts_with_space(s) {
        lemma_offset_of(s, Class::Text, 0);
        assert(first_word(s) == Seq::<char>::empty());
        lemma_words_split_whitespace(after_first_word(s));
        lemma_split_drops_leading_space(s, 0);
        assert(s.skip(0) == s);
    } else {
        lemma_words_split_whitespace(s);
    }
}

/// A whitespace character at the end adds nothing to the split.
proof fn lemma_split_drops_last_space(s: Seq<char>)
    requires
        s.len() > 0,
        is_whitespace(s.last()),
    ensures
        split_whitespace(s) == split_whitespace(s.drop_last()),
    decreases s.len(),
{
    let front = s.drop_last();
    let at = offset_of(s, Class::Space, 0);
    lemma_offset_of(s, Class::Space, 0);
    lemma_offset_of_is(front, Class::Space, 0, at);
    assert(front.take(at) == s.take(at));
    if at == s.len() - 1 {
        lemma_filter_one(s.skip(at + 1));
        Seq::filter_distributes_over_add(seq![s.take(at)], pieces(s.skip(at + 1)), kept());
    } else {
        let rest = s.skip(at + 1);
        lemma_split_drops_last_space(rest);
        assert(rest.drop_last() == front.skip(at + 1));
    }
}

/// Whitespace at the end adds nothing to the split.
proof fn lemma_split_drops_trailing_space(s: Seq<char>)
    ensures
        split_whitespace(s) == split_whitespace(trimmed_end(s)),
    decreases s.len(),
{
    if s.len() > 0 && is_whitespace(s.last()) {
        let front = s.drop_last();
        lemma_split_drops_last_space(s);
        lemma_split_drops_trailing_space(front);
        lemma_text_end(front);
        assert(front.take(text_end(front)) == s.take(text_end(front)));
    } else {
        assert(s.take(s.len() as int) == s);
    }
}

/// The words of a text without quotes, once the whitespace around it is
/// stripped, are the text split on its runs of whitespace.
pub proof fn lemma_words_of_trimmed(s: Seq<char>)
    requires
        quote_free(s),
    ensures
        words(trimmed(s)) == split_whitespace(s),
{
    let inner = trimmed_start(s);
    lemma_offset_of(s, Class::Text, 0);
    lemma_text_end(inner);
    lemma_split_drops_leading_space(s, 0);
    assert(s.skip(0) == s);
    lemma_split_drops_trailing_space(inner);
    lemma_words_split_whitespace(trimmed(s));
}

} // verus!
