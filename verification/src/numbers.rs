//! Whole numbers as texts: what a text writes, and how it is read.

use vstd::prelude::*;
use crate::text::chars_of;

verus! {

/// One of the ten decimal digits.
pub open spec fn is_digit(c: char) -> bool {
    '0' <= c && c <= '9'
}

/// The number a decimal digit stands for.
pub open spec fn digit_value(c: char) -> int {
    c as int - '0' as int
}

/// The number that a run of decimal digits stands for.
pub open spec fn digits_value(s: Seq<char>) -> int
    decreases s.len(),
{
    if s.len() == 0 {
        0
    } else {
        digits_value(s.drop_last()) * 10 + digit_value(s.last())
    }
}

/// Every character is a decimal digit.
pub open spec fn all_digits(s: Seq<char>) -> bool {
    forall|i: int| 0 <= i < s.len() ==> is_digit(#[trigger] s[i])
}

/// The integer that `s` writes: an optional sign, `+` or `-`, followed by
/// one or more decimal digits and nothing else.
pub open spec fn integer_literal(s: Seq<char>) -> Option<int> {
    let signed = s.len() > 0 && (s[0] == '+' || s[0] == '-');
    let body = if signed {
        s.skip(1)
    } else {
        s
    };
    if body.len() > 0 && all_digits(body) {
        if signed && s[0] == '-' {
            Some(-digits_value(body))
        } else {
            Some(digits_value(body))
        }
    } else {
        None
    }
}

/// The 64-bit signed integer that `s` writes, if it writes one.
pub open spec fn literal_i64(s: Seq<char>) -> Option<i64> {
    match integer_literal(s) {
        Some(v) => if i64::MIN <= v <= i64::MAX {
            Some(v as i64)
        } else {
            None
        },
        None => None,
    }
}

/// The 32-bit signed integer that `s` writes, if it writes one.
pub open spec fn literal_i32(s: Seq<char>) -> Option<i32> {
    match integer_literal(s) {
        Some(v) => if i32::MIN <= v <= i32::MAX {
            Some(v as i32)
        } else {
            None
        },
        None => None,
    }
}

/// Why a text writes no whole number of a given width.
#[derive(Clone, Copy, Debug, PartialEq, Eq, Structural)]
pub enum IntErrorKind {
    /// The text is empty.
    Empty,
    /// A character is no digit, or a sign stands alone.
    InvalidDigit,
    /// The number is too large.
    PosOverflow,
    /// The number is too small.
    NegOverflow,
}

/// The text of an error.
pub open spec fn int_error_message(kind: IntErrorKind) -> Seq<char> {
    match kind {
        IntErrorKind::Empty => "cannot parse integer from empty string"@,
        IntErrorKind::InvalidDigit => "invalid digit found in string"@,
        IntErrorKind::PosOverflow => "number too large to fit in target type"@,
        IntErrorKind::NegOverflow => "number too small to fit in target type"@,
    }
}

impl IntErrorKind {
    /// The text of the error.
    pub fn message(&self) -> (out: String)
        ensures
            out@ == int_error_message(*self),
    {
        match self {
            IntErrorKind::Empty => "cannot parse integer from empty string".to_owned(),
            IntErrorKind::InvalidDigit => "invalid digit found in string".to_owned(),
            IntErrorKind::PosOverflow => "number too large to fit in target type".to_owned(),
            IntErrorKind::NegOverflow => "number too small to fit in target type".to_owned(),
        }
    }
}

/// What reading a run of digits from left to right gives: the number they
/// write, counted up for a positive and down for a negative number, or the
/// first thing that goes wrong, a character that is no digit or a number
/// that leaves the range from `lo` to `hi`.
pub open spec fn scanned(digits: Seq<char>, positive: bool, lo: int, hi: int) -> Result<
    int,
    IntErrorKind,
>
    decreases digits.len(),
{
    if digits.len() == 0 {
        Ok(0)
    } else {
        match scanned(digits.drop_last(), positive, lo, hi) {
            Err(e) => Err(e),
            Ok(acc) => if !is_digit(digits.last()) {
                Err(IntErrorKind::InvalidDigit)
            } else if positive {
                if acc * 10 + digit_value(digits.last()) > hi {
                    Err(IntErrorKind::PosOverflow)
                } else {
                    Ok(acc * 10 + digit_value(digits.last()))
                }
            } else {
                if acc * 10 - digit_value(digits.last()) < lo {
                    Err(IntErrorKind::NegOverflow)
                } else {
                    Ok(acc * 10 - digit_value(digits.last()))
                }
            },
        }
    }
}

/// What reading a text as a whole number between `lo` and `hi` gives.
pub open spec fn read_integer(s: Seq<char>, lo: int, hi: int) -> Result<int, IntErrorKind> {
    if s.len() == 0 {
        Err(IntErrorKind::Empty)
    } else if s.len() == 1 && (s[0] == '+' || s[0] == '-') {
        Err(IntErrorKind::InvalidDigit)
    } else if s[0] == '+' {
        scanned(s.skip(1), true, lo, hi)
    } else if s[0] == '-' {
        scanned(s.skip(1), false, lo, hi)
    } else {
        scanned(s, true, lo, hi)
    }
}

/// The message with which a text is turned down as a 64-bit signed
/// integer.
pub open spec fn i64_parse_error(s: Seq<char>) -> Seq<char> {
    match read_integer(s, i64::MIN as int, i64::MAX as int) {
        Err(kind) => int_error_message(kind),
        Ok(_) => Seq::empty(),
    }
}

/// The number that digits write is not negative.
proof fn lemma_digits_value_nonnegative(s: Seq<char>)
    requires
        all_digits(s),
    ensures
        digits_value(s) >= 0,
    decreases s.len(),
{
    if s.len() > 0 {
        assert(all_digits(s.drop_last())) by {
            assert forall|i: int| 0 <= i < s.drop_last().len() implies is_digit(
                #[trigger] s.drop_last()[i],
            ) by {
                assert(s.drop_last()[i] == s[i]);
            }
        }
        lemma_digits_value_nonnegative(s.drop_last());
        assert(is_digit(s[s.len() - 1]));
    }
}

/// Reading a run of digits gives the number they write exactly when all
/// of them are digits and the number lies in the range.
proof fn lemma_scanned(digits: Seq<char>, positive: bool, lo: int, hi: int)
    requires
        lo <= 0 <= hi,
    ensures
        match scanned(digits, positive, lo, hi) {
            Ok(v) => {
                &&& all_digits(digits)
                &&& lo <= v <= hi
                &&& v == if positive {
                    digits_value(digits)
                } else {
                    -digits_value(digits)
                }
            },
            Err(_) => !all_digits(digits) || if positive {
                digits_value(digits) > hi
            } else {
                -digits_value(digits) < lo
            },
        },
    decreases digits.len(),
{
    if digits.len() > 0 {
        let rest = digits.drop_last();
        lemma_scanned(rest, positive, lo, hi);
        if all_digits(digits) {
            assert(all_digits(rest)) by {
                assert forall|i: int| 0 <= i < rest.len() implies is_digit(#[trigger] rest[i]) by {
                    assert(rest[i] == digits[i]);
                }
            }
            assert(is_digit(digits[digits.len() - 1]));
            lemma_digits_value_nonnegative(rest);
        }
        match scanned(rest, positive, lo, hi) {
            Ok(acc) => {
                if is_digit(digits.last()) {
                    assert forall|i: int| 0 <= i < digits.len() implies is_digit(
                        #[trigger] digits[i],
                    ) by {
                        if i < rest.len() {
                            assert(rest[i] == digits[i]);
                        }
                    }
                } else {
                    assert(!is_digit(digits[digits.len() - 1]));
                }
            },
            Err(_) => {},
        }
    }
}

/// Once reading has gone wrong it stays wrong in the same way, whatever
/// follows.
proof fn lemma_scanned_error_stays(digits: Seq<char>, n: int, positive: bool, lo: int, hi: int)
    requires
        0 <= n <= digits.len(),
        scanned(digits.take(n), positive, lo, hi) is Err,
    ensures
        scanned(digits, positive, lo, hi) == scanned(digits.take(n), positive, lo, hi),
    decreases digits.len() - n,
{
    if n < digits.len() {
        assert(digits.drop_last().take(n) =~= digits.take(n));
        lemma_scanned_error_stays(digits.drop_last(), n, positive, lo, hi);
    } else {
        assert(digits.take(n) =~= digits);
    }
}

/// A text is read as a 64-bit signed integer exactly when it writes one.
pub proof fn lemma_read_i64(s: Seq<char>)
    ensures
        match read_integer(s, i64::MIN as int, i64::MAX as int) {
            Ok(v) => literal_i64(s) == Some(v as i64) && i64::MIN <= v <= i64::MAX,
            Err(_) => literal_i64(s) is None,
        },
{
    lemma_read_integer(s, i64::MIN as int, i64::MAX as int);
}

/// A text is read as a 32-bit signed integer exactly when it writes one.
pub proof fn lemma_read_i32(s: Seq<char>)
    ensures
        match read_integer(s, i32::MIN as int, i32::MAX as int) {
            Ok(v) => literal_i32(s) == Some(v as i32) && i32::MIN <= v <= i32::MAX,
            Err(_) => literal_i32(s) is None,
        },
{
    lemma_read_integer(s, i32::MIN as int, i32::MAX as int);
}

proof fn lemma_read_integer(s: Seq<char>, lo: int, hi: int)
    requires
        lo <= 0 <= hi,
    ensures
        match read_integer(s, lo, hi) {
            Ok(v) => integer_literal(s) == Some(v) && lo <= v <= hi,
            Err(_) => match integer_literal(s) {
                Some(v) => !(lo <= v <= hi),
                None => true,
            },
        },
{
    if s.len() == 0 {
    } else if s.len() == 1 && (s[0] == '+' || s[0] == '-') {
        assert(s.skip(1).len() == 0);
    } else if s[0] == '+' {
        lemma_scanned(s.skip(1), true, lo, hi);
    } else if s[0] == '-' {
        lemma_scanned(s.skip(1), false, lo, hi);
    } else {
        lemma_scanned(s, true, lo, hi);
    }
}

/// Reads the digits of `cs` from position `from` on.
fn scan_digits(cs: &Vec<char>, from: usize, positive: bool, lo: i64, hi: i64) -> (r: Result<
    i64,
    IntErrorKind,
>)
    requires
        from <= cs.len(),
        lo <= 0 <= hi,
    ensures
        match r {
            Ok(v) => scanned(cs@.skip(from as int), positive, lo as int, hi as int) == Ok::<
                int,
                IntErrorKind,
            >(v as int),
            Err(e) => scanned(cs@.skip(from as int), positive, lo as int, hi as int) == Err::<
                int,
                IntErrorKind,
            >(e),
        },
{
    let ghost digits = cs@.skip(from as int);
    let mut acc: i64 = 0;
    let mut i: usize = from;
    proof {
        assert(digits.take(0) =~= Seq::<char>::empty());
    }
    while i < cs.len()
        invariant
            from <= i <= cs.len(),
            lo <= 0 <= hi,
            lo <= acc <= hi,
            digits == cs@.skip(from as int),
            scanned(digits.take(i - from), positive, lo as int, hi as int) == Ok::<
                int,
                IntErrorKind,
            >(acc as int),
        decreases cs.len() - i,
    {
        let c = cs[i];
        let ghost next = digits.take(i + 1 - from);
        proof {
            assert(next.drop_last() =~= digits.take(i - from));
            assert(next.last() == c);
        }
        if !('0' <= c && c <= '9') {
            proof {
                lemma_scanned_error_stays(digits, i + 1 - from, positive, lo as int, hi as int);
            }
            return Err(IntErrorKind::InvalidDigit);
        }
        let d: i128 = (c as u32 - '0' as u32) as i128;
        assert(d == digit_value(c));
        let wide: i128 = acc as i128 * 10;
        if positive {
            let v: i128 = wide + d;
            if v > hi as i128 {
                proof {
                    lemma_scanned_error_stays(digits, i + 1 - from, positive, lo as int, hi as int);
                }
                return Err(IntErrorKind::PosOverflow);
            }
            acc = v as i64;
        } else {
            let v: i128 = wide - d;
            if v < lo as i128 {
                proof {
                    lemma_scanned_error_stays(digits, i + 1 - from, positive, lo as int, hi as int);
                }
                return Err(IntErrorKind::NegOverflow);
            }
            acc = v as i64;
        }
        proof {
            lemma_scanned(next, positive, lo as int, hi as int);
        }
        i += 1;
    }
    proof {
        assert(digits.take(cs.len() - from) =~= digits);
    }
    Ok(acc)
}

/// Reads a text as a whole number between `lo` and `hi`: an optional sign,
/// `+` or `-`, followed by decimal digits and nothing else. What goes
/// wrong first, from left to right, is the error.
pub fn parse_integer(s: &str, lo: i64, hi: i64) -> (r: Result<i64, IntErrorKind>)
    requires
        lo <= 0 <= hi,
    ensures
        match r {
            Ok(v) => read_integer(s@, lo as int, hi as int) == Ok::<int, IntErrorKind>(v as int),
            Err(e) => read_integer(s@, lo as int, hi as int) == Err::<int, IntErrorKind>(e),
        },
{
    let cs = chars_of(s);
    if cs.len() == 0 {
        return Err(IntErrorKind::Empty);
    }
    let first = cs[0];
    if cs.len() == 1 && (first == '+' || first == '-') {
        return Err(IntErrorKind::InvalidDigit);
    }
    if first == '+' {
        scan_digits(&cs, 1, true, lo, hi)
    } else if first == '-' {
        scan_digits(&cs, 1, false, lo, hi)
    } else {
        proof {
            assert(cs@.skip(0) =~= cs@);
        }
        scan_digits(&cs, 0, true, lo, hi)
    }
}

/// Reads a text as a 64-bit signed integer: the number that it writes, or
/// the message that says why it writes none.
pub fn parse_i64(s: &str) -> (r: Result<i64, String>)
    ensures
        match r {
            Ok(v) => literal_i64(s@) == Some(v),
            Err(e) => literal_i64(s@) is None && e@ == i64_parse_error(s@),
        },
{
    proof {
        lemma_read_i64(s@);
    }
    match parse_integer(s, i64::MIN, i64::MAX) {
        Ok(v) => Ok(v),
        Err(kind) => Err(kind.message()),
    }
}

/// Reads a text as a 32-bit signed integer, if it writes one.
pub fn parse_i32(s: &str) -> (r: Option<i32>)
    ensures
        r == literal_i32(s@),
{
    proof {
        lemma_read_i32(s@);
    }
    match parse_integer(s, i32::MIN as i64, i32::MAX as i64) {
        Ok(v) => Some(v as i32),
        Err(_) => None,
    }
}

} // verus!
