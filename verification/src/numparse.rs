//! Decimal parser for the iteration bound: an optional leading plus sign,
//! then decimal digits, read left to right. The first problem wins: a byte
//! that is no digit is reported as an invalid digit, and an accumulator that
//! leaves the counter's range is reported as overflow, each at the step where
//! the parser meets it.

use vstd::prelude::*;
use vstd::string::StringSliceAdditionalSpecFns;

use crate::error::Error;
use crate::error::IntegerParseFailureKind;

verus! {

/// True of an ASCII decimal digit byte.
pub open spec fn is_dec_digit(b: u8) -> bool {
    0x30u8 <= b && b <= 0x39u8
}

/// Reading the digit run `d` left to right onto the accumulator `acc`:
/// the final value, or the error met first.
pub open spec fn read_digits(d: Seq<u8>, acc: nat) -> Result<usize, Error>
    decreases d.len(),
{
    if d.len() == 0 {
        if acc <= usize::MAX {
            Ok(acc as usize)
        } else {
            Err(Error::IntegerParseFailure(IntegerParseFailureKind::Overflow))
        }
    } else if !is_dec_digit(d[0]) {
        Err(Error::IntegerParseFailure(IntegerParseFailureKind::InvalidDigit))
    } else if acc * 10 + (d[0] - 0x30u8) > usize::MAX {
        Err(Error::IntegerParseFailure(IntegerParseFailureKind::Overflow))
    } else {
        read_digits(d.skip(1), (acc * 10 + (d[0] - 0x30u8)) as nat)
    }
}

/// What parsing the byte sequence `s` as a non-negative decimal count
/// yields: empty input and a bare sign are rejected, then the digits are
/// read left to right.
pub open spec fn parse_spec(s: Seq<u8>) -> Result<usize, Error> {
    if s.len() == 0 {
        Err(Error::IntegerParseFailure(IntegerParseFailureKind::Empty))
    } else {
        let d = if s[0] == 0x2bu8 {
            s.skip(1)
        } else {
            s
        };
        if d.len() == 0 {
            Err(Error::IntegerParseFailure(IntegerParseFailureKind::InvalidDigit))
        } else {
            read_digits(d, 0)
        }
    }
}

/// Parse the bytes of a decimal count.
pub fn parse_usize_bytes(s: &[u8]) -> (r: Result<usize, Error>)
    ensures
        r == parse_spec(s@),
{
    let n = s.len();
    if n == 0 {
        return Err(Error::IntegerParseFailure(IntegerParseFailureKind::Empty));
    }
    let start: usize = if s[0] == 0x2bu8 {
        1
    } else {
        0
    };
    if n == start {
        return Err(Error::IntegerParseFailure(IntegerParseFailureKind::InvalidDigit));
    }
    let ghost d = if s@[0] == 0x2bu8 {
        s@.skip(1)
    } else {
        s@
    };
    proof {
        assert(d.skip(0) =~= d);
    }
    let mut acc: usize = 0;
    let mut i: usize = start;
    while i < n
        invariant
            start <= i <= n,
            n == s@.len(),
            start <= 1,
            d == s@.skip(start as int),
            d.len() == n - start,
            parse_spec(s@) == read_digits(d.skip(i - start), acc as nat),
        decreases n - i,
    {
        let b = s[i];
        proof {
            assert(d.skip(i - start)[0] == s@[i as int]);
            assert(d.skip(i - start).skip(1) =~= d.skip(i + 1 - start));
        }
        if !(0x30u8 <= b && b <= 0x39u8) {
            return Err(Error::IntegerParseFailure(IntegerParseFailureKind::InvalidDigit));
        }
        let step = match acc.checked_mul(10) {
            Some(t) => t.checked_add((b - 0x30u8) as usize),
            None => None,
        };
        match step {
            Some(t) => {
                acc = t;
            },
            None => {
                return Err(Error::IntegerParseFailure(IntegerParseFailureKind::Overflow));
            },
        }
        i += 1;
    }
    proof {
        assert(d.skip(n - start).len() == 0);
    }
    Ok(acc)
}

/// Parse a decimal count given as text, over its UTF-8 bytes.
pub fn parse_usize(s: &str) -> (r: Result<usize, Error>)
    ensures
        r == parse_spec(s.spec_bytes()),
{
    parse_usize_bytes(s.as_bytes())
}

} // verus!
