//! Base-10 signed integers written as text: an optional `+` or `-`, then one
//! or more ASCII digits, and nothing else.
use vstd::prelude::*;
use vstd::string::StrSliceExecFns;

verus! {

/// Magnitude of the most negative `i32`, the largest magnitude that can fit.
pub const I32_MAGNITUDE_LIMIT: u64 = 2147483648;

/// Why a text is not an `i32` in base 10.
#[derive(Debug, Clone, Copy, PartialEq, Eq, Structural)]
pub enum IntParseError {
    /// The text is empty.
    Empty,
    /// The text holds something other than a sign followed by digits.
    InvalidDigit,
    /// The number is above `i32::MAX`.
    PosOverflow,
    /// The number is below `i32::MIN`.
    NegOverflow,
}

/// Human-readable text for each reason.
pub open spec fn message_of(e: IntParseError) -> Seq<char> {
    match e {
        IntParseError::Empty => "cannot parse integer from empty string"@,
        IntParseError::InvalidDigit => "invalid digit found in string"@,
        IntParseError::PosOverflow => "number too large to fit in target type"@,
        IntParseError::NegOverflow => "number too small to fit in target type"@,
    }
}

impl IntParseError {
    /// The human-readable text for this reason.
    pub fn message(&self) -> (m: String)
        ensures
            m@ == message_of(*self),
    {
        match self {
            IntParseError::Empty => "cannot parse integer from empty string".to_owned(),
            IntParseError::InvalidDigit => "invalid digit found in string".to_owned(),
            IntParseError::PosOverflow => "number too large to fit in target type".to_owned(),
            IntParseError::NegOverflow => "number too small to fit in target type".to_owned(),
        }
    }
}

pub open spec fn is_digit(c: char) -> bool {
    '0' <= c && c <= '9'
}

/// Value of a run of decimal digits, most significant first.
pub open spec fn digits_value(d: Seq<char>) -> int
    decreases d.len(),
{
    if d.len() == 0 {
        0
    } else {
        10 * digits_value(d.drop_last()) + (d.last() as u32 - 48)
    }
}

pub open spec fn has_sign(b: Seq<char>) -> bool {
    b.len() > 0 && (b[0] == '+' || b[0] == '-')
}

pub open spec fn is_negative(b: Seq<char>) -> bool {
    b.len() > 0 && b[0] == '-'
}

/// The text after its sign, if it has one.
pub open spec fn digits_part(b: Seq<char>) -> Seq<char> {
    if has_sign(b) {
        b.drop_first()
    } else {
        b
    }
}

/// An optional sign followed by at least one digit, and nothing else.
pub open spec fn is_decimal(b: Seq<char>) -> bool {
    &&& digits_part(b).len() > 0
    &&& forall|i: int| 0 <= i < digits_part(b).len() ==> is_digit(#[trigger] digits_part(b)[i])
}

/// The number that a decimal text denotes.
pub open spec fn decimal_value(b: Seq<char>) -> int {
    if is_negative(b) {
        -digits_value(digits_part(b))
    } else {
        digits_value(digits_part(b))
    }
}

/// What reading the characters `b` as an `i32` in base 10 gives.
pub open spec fn parse_i32_spec(b: Seq<char>) -> Result<i32, IntParseError> {
    if b.len() == 0 {
        Err(IntParseError::Empty)
    } else if !is_decimal(b) {
        Err(IntParseError::InvalidDigit)
    } else if decimal_value(b) > i32::MAX {
        Err(IntParseError::PosOverflow)
    } else if decimal_value(b) < i32::MIN {
        Err(IntParseError::NegOverflow)
    } else {
        Ok(decimal_value(b) as i32)
    }
}

/// Reads `s` as a base-10 `i32`.
pub fn parse_i32(s: &str) -> (r: Result<i32, IntParseError>)
    ensures
        r == parse_i32_spec(s@),
{
    let n = s.unicode_len();
    let ghost b = s@;
    if n == 0 {
        return Err(IntParseError::Empty);
    }
    let first = s.get_char(0);
    let negative = first == '-';
    let start: usize = if first == '+' || first == '-' { 1 } else { 0 };
    assert(digits_part(b) =~= b.subrange(start as int, n as int));
    if start == n {
        return Err(IntParseError::InvalidDigit);
    }
    let mut mag: u64 = 0;
    let mut over_limit = false;
    let mut i: usize = start;
    while i < n
        invariant
            b == s@,
            n == b.len(),
            start <= i <= n,
            digits_part(b) =~= b.subrange(start as int, n as int),
            forall|j: int| start <= j < i ==> is_digit(#[trigger] b[j]),
            !over_limit ==> mag == digits_value(b.subrange(start as int, i as int)),
            !over_limit ==> mag <= I32_MAGNITUDE_LIMIT,
            over_limit ==> digits_value(b.subrange(start as int, i as int)) > I32_MAGNITUDE_LIMIT,
        decreases n - i,
    {
        let c = s.get_char(i);
        if c < '0' || c > '9' {
            assert(!is_digit(digits_part(b)[i - start]));
            return Err(IntParseError::InvalidDigit);
        }
        assert(b.subrange(start as int, i + 1).drop_last() =~= b.subrange(start as int, i as int));
        if !over_limit {
            let next = mag * 10 + (c as u32 - 48) as u64;
            if next > I32_MAGNITUDE_LIMIT {
                over_limit = true;
            } else {
                mag = next;
            }
        }
        i = i + 1;
    }
    assert(b.subrange(start as int, n as int) =~= digits_part(b));
    assert(is_decimal(b));
    if negative {
        if over_limit {
            Err(IntParseError::NegOverflow)
        } else {
            Ok((0i64 - mag as i64) as i32)
        }
    } else {
        if over_limit || mag > i32::MAX as u64 {
            Err(IntParseError::PosOverflow)
        } else {
            Ok(mag as i32)
        }
    }
}

} // verus!
