//! Parsing of the length reply: a decimal parser for `u8` that mirrors the
//! standard library's unsigned integer parsing, including its handling of
//! the leading plus sign, empty input and overflow, so that each failure
//! is reported exactly as a caller of `str::parse::<u8>` would see it.

use vstd::prelude::*;

verus! {

/// Why a length reply failed to parse.
#[derive(Clone, Copy, PartialEq, Eq, Structural, Debug)]
pub enum ParseError {
    /// The input held no characters at all.
    Empty,
    /// A character outside the expected digits was met.
    InvalidDigit,
    /// The value grew past the largest representable length.
    PosOverflow,
}

/// Whether `c` is a decimal digit.
pub open spec fn is_digit(c: char) -> bool {
    48 <= c as u32 <= 57
}

/// The numeric value of a decimal digit.
pub open spec fn digit_value(c: char) -> int {
    c as u32 - 48
}

/// Scans a digit run left to right, accumulating into `acc`, failing at
/// the first non-digit or at the first step that leaves the `u8` range.
pub open spec fn scan_digits(s: Seq<char>, acc: int) -> Result<int, ParseError>
    decreases s.len(),
{
    if s.len() == 0 {
        Ok(acc)
    } else if !is_digit(s[0]) {
        Err(ParseError::InvalidDigit)
    } else if acc * 10 + digit_value(s[0]) > 255 {
        Err(ParseError::PosOverflow)
    } else {
        scan_digits(s.drop_first(), acc * 10 + digit_value(s[0]))
    }
}

/// The value of a length reply: an optional leading plus sign followed by
/// decimal digits, with every failure classified. A minus sign is no
/// digit, so it fails as one, as the standard parser has it for unsigned
/// values.
pub open spec fn spec_parse_u8(s: Seq<char>) -> Result<u8, ParseError> {
    if s.len() == 0 {
        Err(ParseError::Empty)
    } else if s[0] == '+' {
        if s.len() == 1 {
            Err(ParseError::InvalidDigit)
        } else {
            match scan_digits(s.drop_first(), 0) {
                Ok(v) => Ok(v as u8),
                Err(e) => Err(e),
            }
        }
    } else {
        match scan_digits(s, 0) {
            Ok(v) => Ok(v as u8),
            Err(e) => Err(e),
        }
    }
}

/// Whether `c` is a decimal digit.
fn is_digit_exec(c: char) -> (r: bool)
    ensures
        r == is_digit(c),
{
    let u = c as u32;
    48 <= u && u <= 57
}

/// Parses a length reply held as characters.
#[verifier::loop_isolation(false)]
pub fn parse_u8(v: &Vec<char>) -> (r: Result<u8, ParseError>)
    ensures
        r == spec_parse_u8(v@),
{
    if v.len() == 0 {
        return Err(ParseError::Empty);
    }
    let first = v[0];
    let start: usize = if first == '+' {
        1
    } else {
        0
    };
    if v.len() == start {
        return Err(ParseError::InvalidDigit);
    }
    let ghost body: Seq<char> = v@.skip(start as int);
    proof {
        if start == 1 {
            assert(v@.drop_first() =~= v@.skip(1));
        } else {
            assert(v@.skip(0) =~= v@);
        }
    }
    let n = v.len();
    let mut acc: u8 = 0;
    let mut i: usize = start;
    while i < n
        invariant
            n == v@.len(),
            start <= i <= n,
            body == v@.skip(start as int),
            scan_digits(body, 0) == scan_digits(v@.skip(i as int), acc as int),
        decreases n - i,
    {
        let c = v[i];
        let ghost rest = v@.skip(i as int);
        proof {
            assert(rest.len() > 0);
            assert(rest[0] == v@[i as int]);
            assert(rest.drop_first() =~= v@.skip(i as int + 1));
        }
        if !is_digit_exec(c) {
            proof {
                assert(scan_digits(rest, acc as int) == Err::<int, ParseError>(
                    ParseError::InvalidDigit,
                ));
            }
            return Err(ParseError::InvalidDigit);
        }
        let du: u32 = c as u32 - 48;
        let d: u8 = du as u8;
        let ghost prev_acc: int = acc as int;
        proof {
            assert(d as int == digit_value(c));
        }
        if acc as u32 * 10 + d as u32 > 255 {
            proof {
                assert(scan_digits(rest, acc as int) == Err::<int, ParseError>(
                    ParseError::PosOverflow,
                ));
            }
            return Err(ParseError::PosOverflow);
        }
        acc = acc * 10 + d;
        proof {
            assert(scan_digits(rest, prev_acc) == scan_digits(
                v@.skip(i as int + 1),
                acc as int,
            ));
        }
        i += 1;
    }
    proof {
        assert(v@.skip(n as int) =~= Seq::<char>::empty());
    }
    Ok(acc)
}

} // verus!
