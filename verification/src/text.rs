//! Primitive text values: what the flat text of an attribute or element
//! body denotes as a number or boolean.  The actual numeric parsing is
//! delegated to the standard library's parser; the spec functions here pin
//! down exactly which strings it accepts and what they denote.

use crate::error::Error;
use vstd::prelude::*;

verus! {

/// Whether every character of `s` is a decimal digit.
pub open spec fn all_digits(s: Seq<char>) -> bool {
    forall|i: int| 0 <= i < s.len() ==> '0' <= #[trigger] s[i] && s[i] <= '9'
}

/// The integer value of a pure digit string.
pub open spec fn digits_value(s: Seq<char>) -> int
    decreases s.len(),
{
    if s.len() == 0 {
        0
    } else {
        digits_value(s.drop_last()) * 10 + (s.last() as int - '0' as int)
    }
}

/// The integer denoted by `s`: an optional `+` or `-` sign followed by at
/// least one decimal digit, exactly as the standard library's integer
/// parser accepts it.
pub open spec fn int_text_value(s: Seq<char>) -> Option<int> {
    if s.len() > 0 && (s[0] == '+' || s[0] == '-') {
        let digits = s.skip(1);
        if digits.len() > 0 && all_digits(digits) {
            if s[0] == '-' {
                Some(-digits_value(digits))
            } else {
                Some(digits_value(digits))
            }
        } else {
            None
        }
    } else if s.len() > 0 && all_digits(s) {
        Some(digits_value(s))
    } else {
        None
    }
}

/// `int_text_value`, rejected when out of the signed 64-bit range.
pub open spec fn i64_text_value(s: Seq<char>) -> Option<i64> {
    match int_text_value(s) {
        Some(n) => if i64::MIN <= n <= i64::MAX {
            Some(n as i64)
        } else {
            None
        },
        None => None,
    }
}

/// `int_text_value` without the minus sign, rejected when out of the
/// unsigned 64-bit range.
pub open spec fn u64_text_value(s: Seq<char>) -> Option<u64> {
    if s.len() > 0 && s[0] == '-' {
        None
    } else {
        match int_text_value(s) {
            Some(n) => if 0 <= n <= u64::MAX {
                Some(n as u64)
            } else {
                None
            },
            None => None,
        }
    }
}

/// The boolean denoted by `s`: exactly `true` or `false`.
pub open spec fn bool_text_value(s: Seq<char>) -> Option<bool> {
    if s == "true"@ {
        Some(true)
    } else if s == "false"@ {
        Some(false)
    } else {
        None
    }
}

/// Relies on `str::parse::<i64>`: an optional sign followed by decimal
/// digits, rejected when empty, malformed, or out of range.
#[verifier::external_body]
pub fn parse_i64_text(s: &str) -> (r: Result<i64, Error>)
    ensures
        r matches Ok(v) ==> i64_text_value(s@) == Some(v),
        r matches Err(e) ==> i64_text_value(s@) is None && (e matches Error::TypeConversion {
            value,
        } && value@ == s@),
{
    match s.parse::<i64>() {
        Ok(v) => Ok(v),
        Err(_) => Err(Error::TypeConversion { value: s.to_owned() }),
    }
}

/// Relies on `str::parse::<u64>`: an optional plus sign followed by decimal
/// digits, rejected when empty, malformed, or out of range.
#[verifier::external_body]
pub fn parse_u64_text(s: &str) -> (r: Result<u64, Error>)
    ensures
        r matches Ok(v) ==> u64_text_value(s@) == Some(v),
        r matches Err(e) ==> u64_text_value(s@) is None && (e matches Error::TypeConversion {
            value,
        } && value@ == s@),
{
    match s.parse::<u64>() {
        Ok(v) => Ok(v),
        Err(_) => Err(Error::TypeConversion { value: s.to_owned() }),
    }
}

/// Parses a boolean: exactly `true` or `false`, anything else is a type
/// conversion error carrying the offending text.
pub fn parse_bool_text(s: &str) -> (r: Result<bool, Error>)
    ensures
        bool_text_value(s@) matches Some(b) ==> (r matches Ok(rb) && rb == b),
        bool_text_value(s@) is None ==> (r matches Err(e) && e matches Error::TypeConversion {
            value,
        } && value@ == s@),
{
    let text = s.to_owned();
    if text == String::from_str("true") {
        Ok(true)
    } else if text == String::from_str("false") {
        Ok(false)
    } else {
        Err(Error::TypeConversion { value: text })
    }
}

} // verus!
