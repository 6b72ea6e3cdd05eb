//! Recognising the decimal text of a 64-bit signed integer.

use vstd::prelude::*;

verus! {

/// `c` is one of the ten decimal digits.
pub open spec fn is_digit(c: char) -> bool {
    '0' <= c <= '9'
}

/// The value of a decimal digit; zero for any other character.
pub open spec fn digit_value(c: char) -> nat {
    if is_digit(c) {
        (c as nat - '0' as nat) as nat
    } else {
        0
    }
}

/// Every character of `s` is a decimal digit.
pub open spec fn all_digits(s: Seq<char>) -> bool {
    forall|i: int| 0 <= i < s.len() ==> is_digit(#[trigger] s[i])
}

/// The number that the digits of `s` write in decimal.
pub open spec fn digits_value(s: Seq<char>) -> nat
    decreases s.len(),
{
    if s.len() == 0 {
        0
    } else {
        10 * digits_value(s.drop_last()) + digit_value(s.last())
    }
}

/// `s` is one or more decimal digits that write a number of at most `limit`.
pub open spec fn is_number_up_to(s: Seq<char>, limit: nat) -> bool {
    s.len() > 0 && all_digits(s) && digits_value(s) <= limit
}

/// `s` writes an integer that fits in 64 signed bits: an optional sign, then
/// one or more decimal digits, and nothing else.
pub open spec fn is_i64_text(s: Seq<char>) -> bool {
    if s.len() > 0 && s[0] == '-' {
        is_number_up_to(s.skip(1), 0x8000_0000_0000_0000)
    } else if s.len() > 0 && s[0] == '+' {
        is_number_up_to(s.skip(1), 0x7fff_ffff_ffff_ffff)
    } else {
        is_number_up_to(s, 0x7fff_ffff_ffff_ffff)
    }
}

/// Digits added at the end never make the number smaller.
proof fn lemma_digits_value_grows(s: Seq<char>, k: int)
    requires
        0 <= k <= s.len(),
    ensures
        digits_value(s.take(k)) <= digits_value(s),
    decreases s.len() - k,
{
    if k == s.len() {
        assert(s.take(k) =~= s);
    } else {
        lemma_digits_value_grows(s.drop_last(), k);
        assert(s.drop_last().take(k) =~= s.take(k));
    }
}

/// Whether the characters of `text` from `start` on are one or more digits
/// that write a number of at most `limit`, for a `limit` of at least nine.
fn digits_up_to(text: &str, start: usize, limit: u64) -> (fits: bool)
    requires
        start <= text@.len(),
        limit >= 9,
    ensures
        fits == is_number_up_to(text@.skip(start as int), limit as nat),
{
    let len: usize = text.unicode_len();
    if start == len {
        return false;
    }
    let ghost body = text@.skip(start as int);
    let mut value: u64 = 0;
    let mut i: usize = start;
    while i < len
        invariant
            start <= i <= len,
            len == text@.len(),
            body == text@.skip(start as int),
            all_digits(body.take(i - start)),
            value == digits_value(body.take(i - start)),
            value <= limit,
            limit >= 9,
        decreases len - i,
    {
        let c: char = text.get_char(i);
        proof {
            assert(body.take(i - start + 1).drop_last() =~= body.take(i - start));
            assert(body.take(i - start + 1).last() == c);
        }
        if !(c >= '0' && c <= '9') {
            return false;
        }
        let digit: u64 = (c as u32 - '0' as u32) as u64;
        if value > (limit - digit) / 10 {
            proof {
                lemma_digits_value_grows(body, i - start + 1);
            }
            return false;
        }
        value = 10 * value + digit;
        i += 1;
    }
    proof {
        assert(body.take(len - start) =~= body);
    }
    true
}

/// Whether `text` writes an integer that fits in 64 signed bits.
pub fn is_i64(text: &str) -> (fits: bool)
    ensures
        fits == is_i64_text(text@),
{
    let len: usize = text.unicode_len();
    if len > 0 && text.get_char(0) == '-' {
        digits_up_to(text, 1, 0x8000_0000_0000_0000)
    } else if len > 0 && text.get_char(0) == '+' {
        digits_up_to(text, 1, 0x7fff_ffff_ffff_ffff)
    } else {
        proof {
            assert(text@.skip(0) =~= text@);
        }
        digits_up_to(text, 0, 0x7fff_ffff_ffff_ffff)
    }
}

} // verus!
