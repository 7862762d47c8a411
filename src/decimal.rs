//! Decimal integer literals, as `i64`'s `FromStr` reads them.
use vstd::prelude::*;

verus! {

pub open spec fn is_ascii_digit(c: char) -> bool {
    '0' <= c && c <= '9'
}

pub open spec fn digit_value(c: char) -> int {
    (c as u32) as int - ('0' as u32) as int
}

/// One or more ASCII digits and nothing else.
pub open spec fn is_digit_run(s: Seq<char>) -> bool {
    s.len() > 0 && forall|i: int| 0 <= i < s.len() ==> is_ascii_digit(#[trigger] s[i])
}

/// The number that a run of decimal digits writes, most significant first.
pub open spec fn digits_value(s: Seq<char>) -> int
    decreases s.len(),
{
    if s.len() == 0 {
        0
    } else {
        digits_value(s.drop_last()) * 10 + digit_value(s.last())
    }
}

/// The integer that `s` writes in base 10: an optional `+` or `-` followed by
/// one or more ASCII digits, with nothing before or after.
pub open spec fn decimal_integer(s: Seq<char>) -> Option<int> {
    if s.len() > 0 && s[0] == '-' && is_digit_run(s.drop_first()) {
        Some(-digits_value(s.drop_first()))
    } else if s.len() > 0 && s[0] == '+' && is_digit_run(s.drop_first()) {
        Some(digits_value(s.drop_first()))
    } else if is_digit_run(s) {
        Some(digits_value(s))
    } else {
        None
    }
}

/// What reading `s` as an `i64` gives: the literal's value where it is one and
/// fits in 64 signed bits, nothing otherwise.
pub open spec fn parsed_i64(s: Seq<char>) -> Option<i64> {
    match decimal_integer(s) {
        Some(v) => if i64::MIN <= v && v <= i64::MAX {
            Some(v as i64)
        } else {
            None
        },
        None => None,
    }
}

/// Relies on `str::parse::<i64>` (`i64::from_str`, which is
/// `i64::from_str_radix(s, 10)`): it accepts an optional `+` or `-` followed
/// by ASCII digits only, and fails on anything else, on a bare sign, on the
/// empty string and on a value out of the range of `i64`.
#[verifier::external_body]
pub(crate) fn parse_i64(s: &str) -> (r: Option<i64>)
    ensures
        r == parsed_i64(s@),
{
    s.parse::<i64>().ok()
}

} // verus!
