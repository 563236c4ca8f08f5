//! Stripping the whitespace around a line.

use vstd::prelude::*;
use vstd::string::StrSliceExecFns;
use crate::chars::{is_whitespace, whitespace, Class};
use crate::scan::{find, lemma_offset_of, offset_of};
use crate::text::byte_len;

verus! {

/// Offset just behind the last character of `s` that is no whitespace, or 0
/// where `s` holds whitespace only.
pub open spec fn text_end(s: Seq<char>) -> int
    decreases s.len(),
{
    if s.len() == 0 {
        0
    } else if !is_whitespace(s.last()) {
        s.len() as int
    } else {
        text_end(s.drop_last())
    }
}

/// `s` without the whitespace at its start.
pub open spec fn trimmed_start(s: Seq<char>) -> Seq<char> {
    s.skip(offset_of(s, Class::Text, 0))
}

/// `s` without the whitespace at its end.
pub open spec fn trimmed_end(s: Seq<char>) -> Seq<char> {
    s.take(text_end(s))
}

/// `s` without the whitespace at its start and at its end.
pub open spec fn trimmed(s: Seq<char>) -> Seq<char> {
    trimmed_end(trimmed_start(s))
}

/// `text_end` lies inside `s`, behind a character that is no whitespace, and
/// only whitespace follows it.
pub proof fn lemma_text_end(s: Seq<char>)
    ensures
        0 <= text_end(s) <= s.len(),
        text_end(s) > 0 ==> !is_whitespace(s[text_end(s) - 1]),
        forall|i: int| text_end(s) <= i < s.len() ==> is_whitespace(#[trigger] s[i]),
    decreases s.len(),
{
    if s.len() > 0 && is_whitespace(s.last()) {
        let front = s.drop_last();
        lemma_text_end(front);
        assert forall|i: int| text_end(s) <= i < s.len() implies is_whitespace(#[trigger] s[i]) by {
            if i < front.len() {
                assert(s[i] == front[i]);
            }
        }
    }
}

/// Strips the whitespace at the start of `s`.
pub fn trim_start(s: &str) -> (out: &str)
    ensures
        out@ == trimmed_start(s@),
{
    let len: usize = s.unicode_len();
    proof {
        lemma_offset_of(s@, Class::Text, 0);
    }
    let start: usize = find(s, Class::Text, 0);
    s.substring_char(start, len)
}

/// Strips the whitespace at the end of `s`.
pub fn trim_end(s: &str) -> (out: &str)
    ensures
        out@ == trimmed_end(s@),
{
    let limit: usize = byte_len(s);
    let mut i: usize = 0;
    let mut end: usize = 0;
    for c in it: s.chars()
        invariant
            i == it.index(),
            it.seq() == s@,
            s@.len() <= limit,
            end == text_end(s@.take(i as int)),
            end <= i,
    {
        proof {
            assert(s@.take(i + 1).drop_last() == s@.take(i as int));
        }
        i += 1;
        if !whitespace(c) {
            end = i;
        }
    }
    proof {
        assert(s@.take(i as int) == s@);
    }
    s.substring_char(0, end)
}

/// Strips the whitespace at the start and at the end of `s`.
pub fn trim(s: &str) -> (out: &str)
    ensures
        out@ == trimmed(s@),
{
    trim_end(trim_start(s))
}

} // verus!
