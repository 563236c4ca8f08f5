//! Decimal integers as text: reading an exit code and writing one.

use vstd::prelude::*;
use vstd::string::StringExecFns;

verus! {

/// Whether `c` is one of the ten decimal digits.
pub open spec fn is_digit(c: char) -> bool {
    '0' <= c <= '9'
}

/// The number that a decimal digit stands for.
pub open spec fn digit_value(c: char) -> int {
    c as int - '0' as int
}

/// Whether `s` holds decimal digits only.
pub open spec fn all_digits(s: Seq<char>) -> bool {
    forall|i: int| 0 <= i < s.len() ==> is_digit(#[trigger] s[i])
}

/// The number that a run of decimal digits stands for; 0 for the empty run.
pub open spec fn digits_value(s: Seq<char>) -> int
    decreases s.len(),
{
    if s.len() == 0 {
        0
    } else {
        10 * digits_value(s.drop_last()) + digit_value(s.last())
    }
}

/// Whether `s` starts with a plus or a minus sign.
pub open spec fn has_sign(s: Seq<char>) -> bool {
    s.len() > 0 && (s[0] == '+' || s[0] == '-')
}

/// The digits of `s`: all of it but a leading sign.
pub open spec fn digits_part(s: Seq<char>) -> Seq<char> {
    if has_sign(s) {
        s.skip(1)
    } else {
        s
    }
}

/// The integer that `s` denotes: an optional sign, then one or more decimal
/// digits and nothing else. `None` for any other text.
pub open spec fn int_value(s: Seq<char>) -> Option<int> {
    let digits = digits_part(s);
    if digits.len() == 0 || !all_digits(digits) {
        None
    } else if s[0] == '-' {
        Some(-digits_value(digits))
    } else {
        Some(digits_value(digits))
    }
}

/// The integer that `s` denotes where it fits in 32 bits, `None` otherwise.
pub open spec fn i32_value(s: Seq<char>) -> Option<i32> {
    match int_value(s) {
        Some(v) => if i32::MIN <= v <= i32::MAX {
            Some(v as i32)
        } else {
            None
        },
        None => None,
    }
}

/// A run of digits is worth at least as much as any of its prefixes.
pub proof fn lemma_digits_value_grows(s: Seq<char>, k: int)
    requires
        all_digits(s),
        0 <= k <= s.len(),
    ensures
        0 <= digits_value(s.take(k)) <= digits_value(s),
    decreases s.len(),
{
    if k == s.len() {
        assert(s.take(k) == s);
        if k > 0 {
            lemma_digits_value_grows(s.drop_last(), k - 1);
        }
    } else {
        lemma_digits_value_grows(s.drop_last(), k);
        assert(s.drop_last().take(k) == s.take(k));
    }
}

/// Reads a 32-bit integer in decimal: an optional sign, then one or more
/// digits and nothing else. Gives `None` for any other text, and for a number
/// that does not fit.
pub fn parse_i32(s: &str) -> (n: Option<i32>)
    ensures
        n == i32_value(s@),
{
    let ghost text = s@;
    let ghost off: int = if has_sign(text) {
        1
    } else {
        0
    };
    let mut first: bool = true;
    let mut negative: bool = false;
    let mut any: bool = false;
    let mut value: i64 = 0;
    for c in it: s.chars()
        invariant
            it.seq() == text,
            text == s@,
            off == if has_sign(text) {
                1int
            } else {
                0int
            },
            first == (it.index() == 0),
            first ==> !negative && !any && value == 0,
            !first ==> negative == (text[0] == '-'),
            !first ==> any == (it.index() > off),
            !first ==> all_digits(text.subrange(off, it.index() as int)),
            !first ==> value == digits_value(text.subrange(off, it.index() as int)),
            0 <= value <= 0x8000_0000,
    {
        let ghost k = it.index() as int;
        if first && (c == '+' || c == '-') {
            negative = c == '-';
        } else if '0' <= c && c <= '9' {
            let digit: i64 = (c as u32 - '0' as u32) as i64;
            let ghost run = text.subrange(off, k + 1);
            proof {
                assert(run.drop_last() == text.subrange(off, k));
                assert(digits_value(run) == 10 * digits_value(text.subrange(off, k)) + digit);
            }
            if value * 10 + digit > 0x8000_0000 {
                proof {
                    let digits = digits_part(text);
                    if all_digits(digits) {
                        lemma_digits_value_grows(digits, k + 1 - off);
                        assert(digits.take(k + 1 - off) == run);
                    }
                }
                return None;
            }
            value = value * 10 + digit;
            any = true;
        } else {
            proof {
                let digits = digits_part(text);
                assert(digits[k - off] == c);
            }
            return None;
        }
        first = false;
    }
    proof {
        assert(text.subrange(off, text.len() as int) == digits_part(text));
    }
    if !any {
        None
    } else if negative {
        Some((-value) as i32)
    } else if value <= 0x7fff_ffff {
        Some(value as i32)
    } else {
        None
    }
}

/// The decimal digit that stands for `d`, for `d` from 0 to 9.
pub open spec fn digit_char(d: int) -> char {
    if d == 0 {
        '0'
    } else if d == 1 {
        '1'
    } else if d == 2 {
        '2'
    } else if d == 3 {
        '3'
    } else if d == 4 {
        '4'
    } else if d == 5 {
        '5'
    } else if d == 6 {
        '6'
    } else if d == 7 {
        '7'
    } else if d == 8 {
        '8'
    } else {
        '9'
    }
}

/// The decimal digits of `n`, without leading zeros; "0" for 0.
pub open spec fn digits_of(n: nat) -> Seq<char>
    decreases n,
{
    if n < 10 {
        seq![digit_char(n as int)]
    } else {
        digits_of(n / 10).push(digit_char((n % 10) as int))
    }
}

/// The decimal text of `n`: a minus sign where it is negative, then its
/// digits.
pub open spec fn decimal(n: int) -> Seq<char> {
    if n < 0 {
        seq!['-'] + digits_of((-n) as nat)
    } else {
        digits_of(n as nat)
    }
}

/// The digits of a number are digits, at least one, and stand for it.
pub proof fn lemma_digits_of(n: nat)
    ensures
        digits_of(n).len() > 0,
        all_digits(digits_of(n)),
        digits_value(digits_of(n)) == n,
    decreases n,
{
    let d = digits_of(n);
    if n < 10 {
        assert(digits_value(d.drop_last()) == 0);
    } else {
        lemma_digits_of(n / 10);
        assert(d.drop_last() == digits_of(n / 10));
    }
}

/// Reading what was written gives the number back: the decimal text of a
/// 32-bit integer denotes that integer.
pub proof fn lemma_read_written(n: i32)
    ensures
        i32_value(decimal(n as int)) == Some(n),
{
    if n < 0 {
        let digits = digits_of((-n) as nat);
        lemma_digits_of((-n) as nat);
        assert(decimal(n as int).skip(1) == digits);
    } else {
        let digits = digits_of(n as nat);
        lemma_digits_of(n as nat);
    }
}

/// The text of one decimal digit.
fn digit_text(d: u64) -> (text: &'static str)
    requires
        d < 10,
    ensures
        text@ == seq![digit_char(d as int)],
{
    proof {
        reveal_strlit("0");
        reveal_strlit("1");
        reveal_strlit("2");
        reveal_strlit("3");
        reveal_strlit("4");
        reveal_strlit("5");
        reveal_strlit("6");
        reveal_strlit("7");
        reveal_strlit("8");
        reveal_strlit("9");
    }
    let text: &'static str = if d == 0 {
        "0"
    } else if d == 1 {
        "1"
    } else if d == 2 {
        "2"
    } else if d == 3 {
        "3"
    } else if d == 4 {
        "4"
    } else if d == 5 {
        "5"
    } else if d == 6 {
        "6"
    } else if d == 7 {
        "7"
    } else if d == 8 {
        "8"
    } else {
        "9"
    };
    text
}

/// Appends the decimal digits of `n` to `out`.
fn push_digits(out: &mut String, n: u64)
    ensures
        final(out)@ == old(out)@ + digits_of(n as nat),
    decreases n,
{
    if n >= 10 {
        push_digits(out, n / 10);
    }
    out.append(digit_text(n % 10));
}

/// Writes a 32-bit integer in decimal.
pub fn format_i32(n: i32) -> (text: String)
    ensures
        text@ == decimal(n as int),
{
    let mut text = String::new();
    let wide: i64 = n as i64;
    if wide < 0 {
        proof {
            reveal_strlit("-");
        }
        text.append("-");
        push_digits(&mut text, (-wide) as u64);
    } else {
        push_digits(&mut text, wide as u64);
    }
    text
}

} // verus!
