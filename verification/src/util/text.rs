//! Reading numbers from text, and comparing texts.

use vstd::prelude::*;
use vstd::string::*;

verus! {

/// Whether `c` is one of the ten decimal digits.
pub open spec fn is_digit(c: char) -> bool {
    '0' <= c <= '9'
}

/// Whether every character of `s` is a decimal digit.
pub open spec fn all_digits(s: Seq<char>) -> bool {
    forall|i: int| 0 <= i < s.len() ==> is_digit(#[trigger] s[i])
}

/// The number that a run of decimal digits denotes.
pub open spec fn digits_value(s: Seq<char>) -> int
    decreases s.len(),
{
    if s.len() == 0 {
        0
    } else {
        digits_value(s.drop_last()) * 10 + (s.last() as int - '0' as int)
    }
}

/// The digits of a decimal numeral: the text without one leading plus sign.
pub open spec fn numeral_digits(s: Seq<char>) -> Seq<char> {
    if s.len() > 0 && s[0] == '+' {
        s.subrange(1, s.len() as int)
    } else {
        s
    }
}

/// The value of `s` read as an unsigned decimal numeral of 32 bits.
///
/// A numeral is an optional plus sign followed by at least one digit; leading
/// zeros are allowed. Anything else, and any value above `u32::MAX`, is no
/// numeral.
pub open spec fn decimal_u32(s: Seq<char>) -> Option<u32> {
    let digits = numeral_digits(s);
    if digits.len() > 0 && all_digits(digits) && digits_value(digits) <= u32::MAX {
        Some(digits_value(digits) as u32)
    } else {
        None
    }
}

proof fn lemma_digits_value_grows(s: Seq<char>, n: int)
    requires
        0 <= n <= s.len(),
        all_digits(s),
    ensures
        0 <= digits_value(s.subrange(0, n)) <= digits_value(s),
    decreases s.len() - n,
{
    lemma_digits_value_nonnegative(s.subrange(0, n));
    if n < s.len() {
        let longer = s.subrange(0, n + 1);
        assert(longer.drop_last() == s.subrange(0, n));
        assert(is_digit(s[n]));
        lemma_digits_value_grows(s, n + 1);
    } else {
        assert(s.subrange(0, n) == s);
    }
}

proof fn lemma_digits_value_nonnegative(s: Seq<char>)
    requires
        all_digits(s),
    ensures
        0 <= digits_value(s),
    decreases s.len(),
{
    if s.len() > 0 {
        assert(is_digit(s.last()));
        lemma_digits_value_nonnegative(s.drop_last());
    }
}

/// Reads an unsigned decimal numeral of 32 bits.
pub fn parse_u32(text: &str) -> (value: Option<u32>)
    ensures
        value == decimal_u32(text@),
{
    if !text.is_ascii() {
        proof {
            let s = text@;
            let k = choose|k: int| 0 <= k < s.len() && !('\0' <= #[trigger] s[k] <= '\u{7f}');
            let digits = numeral_digits(s);
            if s[0] == '+' {
                assert(k > 0);
                assert(digits[k - 1] == s[k]);
                assert(!is_digit(digits[k - 1]));
            } else {
                assert(!is_digit(digits[k]));
            }
        }
        return None;
    }
    let bytes = text.as_bytes();
    proof {
        is_ascii_spec_bytes(text);
    }
    let n: usize = bytes.len();
    let start: usize = if n > 0 && bytes[0] == 43u8 {
        1
    } else {
        0
    };
    let ghost digits = numeral_digits(text@);
    assert(digits == text@.subrange(start as int, n as int));
    if start == n {
        return None;
    }
    let mut acc: u64 = 0;
    let mut i: usize = start;
    while i < n
        invariant
            start <= i <= n,
            n == bytes@.len(),
            n == text@.len(),
            digits == text@.subrange(start as int, n as int),
            digits == numeral_digits(text@),
            forall|j: int| 0 <= j < n ==> '\0' <= #[trigger] text@[j] <= '\u{7f}',
            forall|j: int| 0 <= j < n ==> bytes@[j] == #[trigger] text@[j] as u8,
            all_digits(digits.subrange(0, i - start)),
            acc == digits_value(digits.subrange(0, i - start)),
            acc <= u32::MAX,
        decreases n - i,
    {
        let b: u8 = bytes[i];
        let ghost c: char = text@[i as int];
        assert(digits[i - start] == c);
        if b < 48u8 || b > 57u8 {
            assert(!is_digit(c));
            return None;
        }
        assert(is_digit(c));
        let ghost shorter = digits.subrange(0, i - start);
        let ghost longer = digits.subrange(0, i + 1 - start);
        assert(longer.drop_last() == shorter);
        assert(longer.last() == c);
        let next: u64 = acc * 10 + (b - 48u8) as u64;
        assert(next == digits_value(longer));
        assert(all_digits(longer)) by {
            assert forall|j: int| 0 <= j < longer.len() implies is_digit(#[trigger] longer[j]) by {
                if j < shorter.len() {
                    assert(longer[j] == shorter[j]);
                }
            }
        }
        if next > 0xFFFF_FFFFu64 {
            proof {
                if all_digits(digits) {
                    lemma_digits_value_grows(digits, i + 1 - start);
                }
            }
            return None;
        }
        acc = next;
        i += 1;
    }
    assert(digits.subrange(0, n - start) == digits);
    Some(acc as u32)
}

/// Whether two texts hold the same characters.
pub fn same_text(a: &str, b: &str) -> (same: bool)
    ensures
        same == (a@ == b@),
{
    let x = a.to_owned();
    let y = b.to_owned();
    x == y
}

} // verus!
