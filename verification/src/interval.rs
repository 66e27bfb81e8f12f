//! The interval between two passes, as it is given on the command line: a
//! whole number of seconds, zero or more.

use vstd::prelude::*;

verus! {

/// The seconds between two passes where the command line names none.
pub const DEFAULT_INTERVAL_SECS: u64 = 90;

/// Whether a character is a decimal digit.
pub open spec fn is_digit(c: char) -> bool {
    '0' <= c <= '9'
}

/// The number that a text of decimal digits stands for.
pub open spec fn digits_value(digits: Seq<char>) -> nat
    decreases digits.len(),
{
    if digits.len() == 0 {
        0
    } else {
        (digits_value(digits.drop_last()) * 10 + (digits.last() as int - '0' as int)) as nat
    }
}

/// The digits of a number's text: the text itself, or what follows its plus
/// sign.
pub open spec fn digits_of(text: Seq<char>) -> Seq<char> {
    if text.len() > 0 && text[0] == '+' {
        text.drop_first()
    } else {
        text
    }
}

/// The seconds that a text stands for: it has to be one decimal digit or
/// more, after at most one plus sign and with nothing else before, between
/// or after, and the number has to fit in 64 bits.
pub open spec fn seconds_of(text: Seq<char>) -> Option<u64> {
    let digits = digits_of(text);
    if digits.len() > 0 && (forall|i: int| 0 <= i < digits.len() ==> is_digit(#[trigger] digits[i]))
        && digits_value(digits) <= u64::MAX {
        Some(digits_value(digits) as u64)
    } else {
        None
    }
}

proof fn lemma_value_grows(digits: Seq<char>, n: int)
    requires
        0 <= n <= digits.len(),
        forall|i: int| 0 <= i < digits.len() ==> is_digit(#[trigger] digits[i]),
    ensures
        digits_value(digits.take(n)) <= digits_value(digits),
    decreases digits.len() - n,
{
    if n == digits.len() {
        assert(digits.take(n) == digits);
    } else {
        let longer = digits.take(n + 1);
        assert(longer.drop_last() == digits.take(n));
        lemma_value_grows(digits, n + 1);
    }
}

/// Reads the interval between two passes from its text. `0` is an interval
/// like any other: the next pass then follows at once.
pub fn parse_interval(text: &str) -> (secs: Option<u64>)
    ensures
        secs == seconds_of(text@),
{
    let len = text.unicode_len();
    let first: usize = if len > 0 && text.get_char(0) == '+' {
        1
    } else {
        0
    };
    let ghost digits = digits_of(text@);
    if first == len {
        return None;
    }
    let mut value: u64 = 0;
    let mut i: usize = first;
    while i < len
        invariant
            first <= i <= len,
            len == text@.len(),
            digits == digits_of(text@),
            digits.len() == len - first,
            forall|j: int| 0 <= j < digits.len() ==> digits[j] == text@[j + first],
            forall|j: int| 0 <= j < i - first ==> is_digit(#[trigger] digits[j]),
            value == digits_value(digits.take(i - first)),
        decreases len - i,
    {
        let c = text.get_char(i);
        let ghost n = i - first;
        assert(digits[n] == c);
        if !(c >= '0' && c <= '9') {
            return None;
        }
        let digit: u64 = (c as u32 - '0' as u32) as u64;
        proof {
            let longer = digits.take(n + 1);
            assert(longer.drop_last() == digits.take(n));
            if forall|j: int| 0 <= j < digits.len() ==> is_digit(#[trigger] digits[j]) {
                lemma_value_grows(digits, n + 1);
            }
        }
        if value > (u64::MAX - digit) / 10 {
            return None;
        }
        value = value * 10 + digit;
        i = i + 1;
    }
    assert(digits.take(len - first) == digits);
    Some(value)
}

} // verus!
