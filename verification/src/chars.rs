//! Character classes that the tokenizer distinguishes.

use vstd::prelude::*;

verus! {

/// The character that opens and closes a quoted word.
pub const QUOTE: char = '"';

/// Whether `c` has the Unicode `White_Space` property.
pub open spec fn is_whitespace(c: char) -> bool {
    let n = c as u32;
    ||| 0x09 <= n <= 0x0d
    ||| n == 0x20
    ||| n == 0x85
    ||| n == 0xa0
    ||| n == 0x1680
    ||| 0x2000 <= n <= 0x200a
    ||| n == 0x2028
    ||| n == 0x2029
    ||| n == 0x202f
    ||| n == 0x205f
    ||| n == 0x3000
}

/// Tests a character for the Unicode `White_Space` property.
pub fn whitespace(c: char) -> (b: bool)
    ensures
        b == is_whitespace(c),
{
    let n: u32 = c as u32;
    (0x09 <= n && n <= 0x0d) || n == 0x20 || n == 0x85 || n == 0xa0 || n == 0x1680 || (0x2000 <= n
        && n <= 0x200a) || n == 0x2028 || n == 0x2029 || n == 0x202f || n == 0x205f || n == 0x3000
}

/// A class of characters that the tokenizer looks for.
#[derive(Clone, Copy, Debug, PartialEq, Eq)]
pub enum Class {
    /// The whitespace characters.
    Space,
    /// The characters that are no whitespace.
    Text,
    /// The quote.
    Quote,
}

impl Class {
    /// Whether `c` belongs to the class.
    pub open spec fn has(self, c: char) -> bool {
        match self {
            Class::Space => is_whitespace(c),
            Class::Text => !is_whitespace(c),
            Class::Quote => c == QUOTE,
        }
    }

    /// Tests whether `c` belongs to the class.
    pub fn holds(self, c: char) -> (b: bool)
        ensures
            b == self.has(c),
    {
        match self {
            Class::Space => whitespace(c),
            Class::Text => !whitespace(c),
            Class::Quote => c == QUOTE,
        }
    }
}

} // verus!
