//! Conversions of the loosely typed values of the API's answers (integers and
//! flags written as decimal strings) into strict integers and booleans.

use vstd::prelude::*;

verus! {

/// Why a string is not the decimal text of a `u64`.
#[derive(Clone, Copy, Debug, PartialEq, Eq, Structural)]
pub enum IntegerTextError {
    /// The string is empty.
    Empty,
    /// The string holds a character that is not a decimal digit where one is due.
    InvalidDigit,
    /// The digits denote a number above `u64::MAX`.
    TooLarge,
}

/// Why a string does not denote the integer-coded value that was asked for.
#[derive(Clone, Copy, Debug, PartialEq, Eq, Structural)]
pub enum NumberStringError {
    /// The string is not the decimal text of a `u64`.
    Text(IntegerTextError),
    /// The string denotes this number, which is outside the values allowed.
    Value(u64),
}

pub open spec fn is_digit(c: char) -> bool {
    '0' <= c && c <= '9'
}

pub open spec fn digit_value(c: char) -> nat {
    (c as nat - '0' as nat) as nat
}

/// Reads the digits of `s` from left to right, stopping at the first
/// character that is not a digit or at the first digit that takes the
/// number past `u64::MAX`.
pub open spec fn scan_digits(s: Seq<char>) -> Result<nat, IntegerTextError>
    decreases s.len(),
{
    if s.len() == 0 {
        Ok(0)
    } else {
        match scan_digits(s.drop_last()) {
            Err(e) => Err(e),
            Ok(v) => if !is_digit(s.last()) {
                Err(IntegerTextError::InvalidDigit)
            } else if v * 10 + digit_value(s.last()) > u64::MAX {
                Err(IntegerTextError::TooLarge)
            } else {
                Ok(v * 10 + digit_value(s.last()))
            },
        }
    }
}

/// What `str::parse::<u64>` gives for `s`: an optional leading `+` and then
/// one or more decimal digits.
pub open spec fn integer_text(s: Seq<char>) -> Result<u64, IntegerTextError> {
    if s.len() == 0 {
        Err(IntegerTextError::Empty)
    } else if (s[0] == '+' || s[0] == '-') && s.len() == 1 {
        Err(IntegerTextError::InvalidDigit)
    } else {
        let digits = if s[0] == '+' { s.drop_first() } else { s };
        match scan_digits(digits) {
            Ok(v) => Ok(v as u64),
            Err(e) => Err(e),
        }
    }
}

proof fn lemma_scan_digits_bounded(s: Seq<char>)
    ensures
        scan_digits(s) matches Ok(v) ==> v <= u64::MAX,
    decreases s.len(),
{
    if s.len() > 0 {
        lemma_scan_digits_bounded(s.drop_last());
    }
}

/// Parses the decimal text of a `u64`, as `str::parse::<u64>` does.
pub fn parse_u64_string(text: &str) -> (r: Result<u64, IntegerTextError>)
    ensures
        r == integer_text(text@),
{
    let n = text.unicode_len();
    if n == 0 {
        return Err(IntegerTextError::Empty);
    }
    let first = text.get_char(0);
    if (first == '+' || first == '-') && n == 1 {
        return Err(IntegerTextError::InvalidDigit);
    }
    let start: usize = if first == '+' { 1 } else { 0 };
    let ghost digits = if first == '+' { text@.drop_first() } else { text@ };
    assert(integer_text(text@) == match scan_digits(digits) {
        Ok(v) => Ok::<u64, IntegerTextError>(v as u64),
        Err(e) => Err(e),
    });
    assert(digits.subrange(0, 0) =~= Seq::<char>::empty());
    let mut value: u64 = 0;
    let mut i: usize = start;
    while i < n
        invariant
            n == text@.len(),
            start <= i <= n,
            start == 0 || start == 1,
            integer_text(text@) == match scan_digits(digits) {
                Ok(v) => Ok::<u64, IntegerTextError>(v as u64),
                Err(e) => Err(e),
            },
            digits == text@.subrange(start as int, n as int),
            scan_digits(digits.subrange(0, i - start)) == Ok::<nat, IntegerTextError>(value as nat),
        decreases n - i,
    {
        let c = text.get_char(i);
        let ghost prefix = digits.subrange(0, i + 1 - start);
        assert(prefix.drop_last() =~= digits.subrange(0, i - start));
        assert(prefix.last() == c);
        if !('0' <= c && c <= '9') {
            assert(scan_digits(digits) == Err::<nat, IntegerTextError>(IntegerTextError::InvalidDigit))
                by {
                lemma_scan_error_persists(digits, (i + 1 - start) as int);
            }
            return Err(IntegerTextError::InvalidDigit);
        }
        let d = (c as u32 - '0' as u32) as u64;
        assert(d as nat == digit_value(c));
        if value > 1844674407370955161 || (value == 1844674407370955161 && d > 5) {
            assert(value * 10 + d > u64::MAX) by (nonlinear_arith)
                requires
                    value > 1844674407370955161 || (value == 1844674407370955161 && d > 5),
            ;
            assert(scan_digits(digits) == Err::<nat, IntegerTextError>(IntegerTextError::TooLarge))
                by {
                lemma_scan_error_persists(digits, (i + 1 - start) as int);
            }
            return Err(IntegerTextError::TooLarge);
        }
        assert(value * 10 + d <= u64::MAX) by (nonlinear_arith)
            requires
                !(value > 1844674407370955161 || (value == 1844674407370955161 && d > 5)),
                d <= 9,
        ;
        value = value * 10 + d;
        i = i + 1;
    }
    assert(digits.subrange(0, n - start) =~= digits);
    Ok(value)
}

/// Once a prefix of `s` fails to scan, `s` fails with the same error.
proof fn lemma_scan_error_persists(s: Seq<char>, k: int)
    requires
        0 <= k <= s.len(),
        scan_digits(s.subrange(0, k)) is Err,
    ensures
        scan_digits(s) == scan_digits(s.subrange(0, k)),
    decreases s.len() - k,
{
    if k < s.len() {
        assert(s.subrange(0, k + 1).drop_last() =~= s.subrange(0, k));
        lemma_scan_error_persists(s, k + 1);
    } else {
        assert(s.subrange(0, k) =~= s);
    }
}

/// What a string-coded flag means: the decimal text of `0` or `1`.
pub open spec fn flag_text(s: Seq<char>) -> Result<bool, NumberStringError> {
    match integer_text(s) {
        Err(e) => Err(NumberStringError::Text(e)),
        Ok(0) => Ok(false),
        Ok(1) => Ok(true),
        Ok(n) => Err(NumberStringError::Value(n)),
    }
}

/// Parses a flag written as the decimal text of `0` (false) or `1` (true).
pub fn parse_bool_number_string(text: &str) -> (r: Result<bool, NumberStringError>)
    ensures
        r == flag_text(text@),
{
    match parse_u64_string(text) {
        Err(e) => Err(NumberStringError::Text(e)),
        Ok(0) => Ok(false),
        Ok(1) => Ok(true),
        Ok(n) => Err(NumberStringError::Value(n)),
    }
}

/// The HTTP status codes that the API may report: 100 to 599.
pub open spec fn is_status_code(n: u64) -> bool {
    100 <= n && n <= 599
}

/// What a string-coded HTTP status code means.
pub open spec fn status_code_text(s: Seq<char>) -> Result<u16, NumberStringError> {
    match integer_text(s) {
        Err(e) => Err(NumberStringError::Text(e)),
        Ok(n) => if is_status_code(n) {
            Ok(n as u16)
        } else {
            Err(NumberStringError::Value(n))
        },
    }
}

/// Parses an HTTP status code written as decimal text.
pub fn parse_status_code_string(text: &str) -> (r: Result<u16, NumberStringError>)
    ensures
        r == status_code_text(text@),
{
    match parse_u64_string(text) {
        Err(e) => Err(NumberStringError::Text(e)),
        Ok(n) => if 100 <= n && n <= 599 {
            Ok(n as u16)
        } else {
            Err(NumberStringError::Value(n))
        },
    }
}

} // verus!
