//! Scanning a string for the first character of a class.
//!
//! Offsets count characters, not bytes.

use vstd::prelude::*;
use crate::chars::Class;
use crate::text::byte_len;

verus! {

/// Offset of the first character of `s` at or after `from` that belongs to
/// `class`, or the length of `s` where there is none.
pub open spec fn offset_of(s: Seq<char>, class: Class, from: int) -> int
    decreases s.len() - from,
{
    if from < 0 || from >= s.len() {
        s.len() as int
    } else if class.has(s[from]) {
        from
    } else {
        offset_of(s, class, from + 1)
    }
}

/// `offset_of` lies between `from` and the end of `s`, no character from
/// `from` up to it belongs to the class, and the character at it does.
pub proof fn lemma_offset_of(s: Seq<char>, class: Class, from: int)
    requires
        0 <= from <= s.len(),
    ensures
        from <= offset_of(s, class, from) <= s.len(),
        forall|i: int| from <= i < offset_of(s, class, from) ==> !class.has(#[trigger] s[i]),
        offset_of(s, class, from) < s.len() ==> class.has(s[offset_of(s, class, from)]),
    decreases s.len() - from,
{
    if from < s.len() && !class.has(s[from]) {
        lemma_offset_of(s, class, from + 1);
    }
}

/// An offset whose character belongs to the class, with none of the class
/// from `from` up to it, is `offset_of`; so is the end of `s` where no
/// character from `from` on belongs to the class.
pub proof fn lemma_offset_of_is(s: Seq<char>, class: Class, from: int, at: int)
    requires
        0 <= from <= at <= s.len(),
        forall|i: int| from <= i < at ==> !class.has(#[trigger] s[i]),
        at < s.len() ==> class.has(s[at]),
    ensures
        offset_of(s, class, from) == at,
    decreases at - from,
{
    if from < at {
        lemma_offset_of_is(s, class, from + 1, at);
    }
}

/// Finds the first character of `s` at or after `from` that belongs to
/// `class`.
pub fn find(s: &str, class: Class, from: usize) -> (at: usize)
    ensures
        at == offset_of(s@, class, from as int),
{
    let limit: usize = byte_len(s);
    let mut i: usize = 0;
    for c in it: s.chars()
        invariant
            i == it.index(),
            it.seq() == s@,
            s@.len() <= limit,
            offset_of(s@, class, from as int) == offset_of(
                s@,
                class,
                if i < from {
                    from as int
                } else {
                    i as int
                },
            ),
    {
        if i >= from && class.holds(c) {
            return i;
        }
        i += 1;
    }
    i
}

} // verus!
