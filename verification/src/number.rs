//! Decimal parsing of unsigned integers, as `str::parse` does it for `u32`, `u64` and `usize`.
use vstd::prelude::*;

verus! {

/// Why a decimal number did not parse (the kinds of `ParseIntError` for unsigned types).
#[derive(Debug, Clone, Copy, PartialEq, Eq, Structural)]
pub enum IntParseError {
    Empty,
    InvalidDigit,
    PosOverflow,
}

impl IntParseError {
    pub fn message(&self) -> (r: &'static str)
        ensures
            r@ == match *self {
                IntParseError::Empty => "cannot parse integer from empty string"@,
                IntParseError::InvalidDigit => "invalid digit found in string"@,
                IntParseError::PosOverflow => "number too large to fit in target type"@,
            },
    {
        match self {
            IntParseError::Empty => "cannot parse integer from empty string",
            IntParseError::InvalidDigit => "invalid digit found in string",
            IntParseError::PosOverflow => "number too large to fit in target type",
        }
    }
}

pub open spec fn is_digit(c: char) -> bool {
    '0' <= c && c <= '9'
}

/// Reads decimal digits left to right: the first non-digit is an invalid digit, and a value
/// past `max` an overflow.
pub open spec fn digits_value(s: Seq<char>, max: nat) -> Result<nat, IntParseError>
    decreases s.len(),
{
    if s.len() == 0 {
        Ok(0)
    } else {
        match digits_value(s.drop_last(), max) {
            Err(e) => Err(e),
            Ok(v) => if !is_digit(s.last()) {
                Err(IntParseError::InvalidDigit)
            } else {
                let n = v * 10 + (s.last() as u32 - 48);
                if n > max {
                    Err(IntParseError::PosOverflow)
                } else {
                    Ok(n as nat)
                }
            },
        }
    }
}

/// `str::parse` for an unsigned type whose largest value is `max`: an optional `+`, then at
/// least one decimal digit.
pub open spec fn parse_unsigned_spec(s: Seq<char>, max: nat) -> Result<nat, IntParseError> {
    if s.len() == 0 {
        Err(IntParseError::Empty)
    } else {
        let body = if s[0] == '+' { s.drop_first() } else { s };
        if body.len() == 0 {
            Err(IntParseError::InvalidDigit)
        } else {
            digits_value(body, max)
        }
    }
}

pub open spec fn parse_u32_spec(s: Seq<char>) -> Result<u32, IntParseError> {
    match parse_unsigned_spec(s, u32::MAX as nat) {
        Ok(n) => Ok(n as u32),
        Err(e) => Err(e),
    }
}

pub open spec fn parse_u64_spec(s: Seq<char>) -> Result<u64, IntParseError> {
    match parse_unsigned_spec(s, u64::MAX as nat) {
        Ok(n) => Ok(n as u64),
        Err(e) => Err(e),
    }
}

pub open spec fn parse_usize_spec(s: Seq<char>) -> Result<usize, IntParseError> {
    match parse_unsigned_spec(s, usize::MAX as nat) {
        Ok(n) => Ok(n as usize),
        Err(e) => Err(e),
    }
}

/// Once reading fails at some prefix, the whole text fails the same way.
proof fn lemma_digits_error_sticks(s: Seq<char>, k: int, max: nat, e: IntParseError)
    requires
        0 <= k < s.len(),
        digits_value(s.subrange(0, k + 1), max) == Err::<nat, IntParseError>(e),
    ensures
        digits_value(s, max) == Err::<nat, IntParseError>(e),
    decreases s.len() - k,
{
    if k + 1 == s.len() {
        assert(s.subrange(0, k + 1) =~= s);
    } else {
        let t = s.subrange(0, k + 2);
        assert(t.drop_last() =~= s.subrange(0, k + 1));
        lemma_digits_error_sticks(s, k + 1, max, e);
    }
}

proof fn lemma_next_exceeds(value: nat, d: nat, max: nat)
    requires
        d <= 9,
    ensures
        (value * 10 + d > max) <==> (value > max / 10 || (value == max / 10 && d > max % 10)),
{
    assert((value * 10 + d > max) <==> (value > max / 10 || (value == max / 10 && d > max % 10)))
        by (nonlinear_arith)
        requires
            d <= 9,
    ;
}

/// Parses a decimal number no larger than `max`.
pub fn parse_unsigned(s: &Vec<char>, max: u64) -> (r: Result<u64, IntParseError>)
    ensures
        match parse_unsigned_spec(s@, max as nat) {
            Ok(n) => r == Ok::<u64, IntParseError>(n as u64),
            Err(e) => r == Err::<u64, IntParseError>(e),
        },
        r is Ok ==> r->Ok_0 <= max,
{
    if s.len() == 0 {
        return Err(IntParseError::Empty);
    }
    let start: usize = if s[0] == '+' { 1 } else { 0 };
    let ghost body = if s@[0] == '+' { s@.drop_first() } else { s@ };
    assert(body =~= s@.subrange(start as int, s@.len() as int));
    if start == s.len() {
        return Err(IntParseError::InvalidDigit);
    }
    let mut value: u64 = 0;
    let mut i: usize = start;
    assert(s@.subrange(start as int, start as int) =~= Seq::<char>::empty());
    while i < s.len()
        invariant
            start <= i <= s.len(),
            s@.len() > 0,
            start < s@.len(),
            body == (if s@[0] == '+' { s@.drop_first() } else { s@ }),
            body =~= s@.subrange(start as int, s@.len() as int),
            digits_value(s@.subrange(start as int, i as int), max as nat) == Ok::<nat, IntParseError>(value as nat),
            value <= max,
        decreases s.len() - i,
    {
        let c = s[i];
        let ghost pre = s@.subrange(start as int, i as int);
        let ghost next = s@.subrange(start as int, i + 1);
        assert(next.drop_last() =~= pre);
        assert(next.last() == c);
        proof {
            assert(s@.subrange(start as int, s@.len() as int).subrange(0, (i - start) + 1) =~= next);
        }
        if !('0' <= c && c <= '9') {
            assert(digits_value(next, max as nat) == Err::<nat, IntParseError>(IntParseError::InvalidDigit));
            proof {
                lemma_digits_error_sticks(body, (i - start) as int, max as nat, IntParseError::InvalidDigit);
            }
            return Err(IntParseError::InvalidDigit);
        }
        let d: u64 = ((c as u32) - 48) as u64;
        proof {
            lemma_next_exceeds(value as nat, d as nat, max as nat);
        }
        if value > max / 10 || (value == max / 10 && d > max % 10) {
            assert(digits_value(next, max as nat) == Err::<nat, IntParseError>(IntParseError::PosOverflow));
            proof {
                lemma_digits_error_sticks(body, (i - start) as int, max as nat, IntParseError::PosOverflow);
            }
            return Err(IntParseError::PosOverflow);
        }
        value = value * 10 + d;
        i += 1;
    }
    Ok(value)
}

/// Parses a decimal `u32`.
pub fn parse_u32(s: &Vec<char>) -> (r: Result<u32, IntParseError>)
    ensures
        r == parse_u32_spec(s@),
{
    match parse_unsigned(s, 0xffff_ffff) {
        Ok(n) => Ok(n as u32),
        Err(e) => Err(e),
    }
}

/// Parses a decimal `u64`.
pub fn parse_u64(s: &Vec<char>) -> (r: Result<u64, IntParseError>)
    ensures
        r == parse_u64_spec(s@),
{
    parse_unsigned(s, u64::MAX)
}

/// Parses a decimal `usize`.
pub fn parse_usize(s: &Vec<char>) -> (r: Result<usize, IntParseError>)
    ensures
        r == parse_usize_spec(s@),
{
    match parse_unsigned(s, usize::MAX as u64) {
        Ok(n) => Ok(n as usize),
        Err(e) => Err(e),
    }
}

} // verus!
