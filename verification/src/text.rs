//! Comparing texts and reading numbers.

use vstd::prelude::*;
use vstd::string::*;

verus! {

/// Whether `a` and `b` hold the same characters.
pub fn same_text(a: &str, b: &str) -> (same: bool)
    ensures
        same == (a@ == b@),
{
    let n = a.unicode_len();
    if n != b.unicode_len() {
        return false;
    }
    let mut i: usize = 0;
    while i < n
        invariant
            i <= n,
            n == a@.len(),
            n == b@.len(),
            forall|k: int| 0 <= k < i ==> a@[k] == b@[k],
        decreases n - i,
    {
        if a.get_char(i) != b.get_char(i) {
            return false;
        }
        i += 1;
    }
    assert(a@ =~= b@);
    true
}

/// The upper-case form of an ASCII letter; any other character itself.
pub open spec fn upper(c: char) -> char {
    if 'a' <= c <= 'z' {
        ((c as u8) - 32) as char
    } else {
        c
    }
}

/// `s` with its ASCII letters in upper case.
pub open spec fn ascii_upper(s: Seq<char>) -> Seq<char> {
    s.map_values(|c: char| upper(c))
}

/// The upper-case form of `c`, as [`upper`] defines it.
pub fn to_upper(c: char) -> (up: char)
    ensures
        up == upper(c),
{
    if 'a' <= c && c <= 'z' {
        ((c as u8) - 32) as char
    } else {
        c
    }
}

/// Whether `a` and `b` are the same text but for the case of ASCII letters.
pub fn same_text_ignoring_case(a: &str, b: &str) -> (same: bool)
    ensures
        same == (ascii_upper(a@) == ascii_upper(b@)),
{
    let n = a.unicode_len();
    if n != b.unicode_len() {
        assert(ascii_upper(a@).len() != ascii_upper(b@).len());
        return false;
    }
    let mut i: usize = 0;
    while i < n
        invariant
            i <= n,
            n == a@.len(),
            n == b@.len(),
            forall|k: int| 0 <= k < i ==> upper(a@[k]) == upper(b@[k]),
        decreases n - i,
    {
        if to_upper(a.get_char(i)) != to_upper(b.get_char(i)) {
            assert(ascii_upper(a@)[i as int] != ascii_upper(b@)[i as int]);
            return false;
        }
        i += 1;
    }
    assert(ascii_upper(a@) =~= ascii_upper(b@));
    true
}

/// Whether `c` is a decimal digit.
pub open spec fn is_digit(c: char) -> bool {
    '0' <= c <= '9'
}

/// The value of the decimal digit `c`.
pub open spec fn digit_value(c: char) -> nat {
    ((c as u8) - 48) as nat
}

/// Whether `s` holds decimal digits only.
pub open spec fn all_digits(s: Seq<char>) -> bool {
    forall|i: int| 0 <= i < s.len() ==> is_digit(#[trigger] s[i])
}

/// The number that the decimal digits `digits` write.
pub open spec fn decimal(digits: Seq<char>) -> nat
    decreases digits.len(),
{
    if digits.len() == 0 {
        0
    } else {
        decimal(digits.drop_last()) * 10 + digit_value(digits.last())
    }
}

/// Whether `raw` starts with a sign.
pub open spec fn is_signed(raw: Seq<char>) -> bool {
    raw.len() > 0 && (raw[0] == '-' || raw[0] == '+')
}

/// The digits of `raw`: all of it but a leading sign.
pub open spec fn digits_of(raw: Seq<char>) -> Seq<char> {
    if is_signed(raw) {
        raw.skip(1)
    } else {
        raw
    }
}

/// The integer that `raw` writes in decimal: an optional sign and then one
/// or more digits. `None` where `raw` is not of that form.
pub open spec fn written_number(raw: Seq<char>) -> Option<int> {
    let digits = digits_of(raw);
    if digits.len() == 0 || !all_digits(digits) {
        None
    } else if raw[0] == '-' {
        Some(-(decimal(digits) as int))
    } else {
        Some(decimal(digits) as int)
    }
}

/// The 64-bit integer that `raw` writes; `None` where it writes none or one
/// that does not fit.
pub open spec fn number_read(raw: Seq<char>) -> Option<i64> {
    match written_number(raw) {
        Some(number) => if i64::MIN <= number <= i64::MAX {
            Some(number as i64)
        } else {
            None
        },
        None => None,
    }
}

/// Reads the 64-bit integer that `raw` writes in decimal.
pub fn parse_number(raw: &str) -> (number: Option<i64>)
    ensures
        number == number_read(raw@),
{
    let n = raw.unicode_len();
    if n == 0 {
        return None;
    }
    let first = raw.get_char(0);
    let negative = first == '-';
    let start: usize = if first == '-' || first == '+' {
        1
    } else {
        0
    };
    let ghost digits = digits_of(raw@);
    if start == n {
        return None;
    }
    let limit: u64 = if negative {
        9223372036854775808
    } else {
        9223372036854775807
    };
    let mut magnitude: u64 = 0;
    let mut too_large = false;
    let mut i: usize = start;
    assert(digits.take(0) =~= Seq::<char>::empty());
    while i < n
        invariant
            start <= i <= n,
            n == raw@.len(),
            digits == digits_of(raw@),
            digits == raw@.skip(start as int),
            9223372036854775807 <= limit <= 9223372036854775808,
            all_digits(digits.take(i - start)),
            !too_large ==> magnitude == decimal(digits.take(i - start)) && magnitude <= limit,
            too_large ==> decimal(digits.take(i - start)) > limit,
        decreases n - i,
    {
        let c = raw.get_char(i);
        assert(c == digits[i - start]);
        if c < '0' || c > '9' {
            assert(!is_digit(digits[i - start]));
            return None;
        }
        let digit: u64 = ((c as u8) - 48) as u64;
        proof {
            assert(digits.take(i - start + 1).drop_last() =~= digits.take(i - start));
            assert(digits.take(i - start + 1).last() == c);
        }
        if !too_large {
            if magnitude > (limit - digit) / 10 {
                too_large = true;
            } else {
                magnitude = magnitude * 10 + digit;
            }
        }
        i += 1;
    }
    assert(digits.take(i - start) =~= digits);
    if too_large {
        None
    } else if negative {
        if magnitude == 9223372036854775808 {
            Some(i64::MIN)
        } else {
            Some(-(magnitude as i64))
        }
    } else {
        Some(magnitude as i64)
    }
}

} // verus!
