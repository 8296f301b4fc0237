//! Decimal numbers as text: what the configuration reads and what addresses
//! and acknowledgements are written with.

use vstd::prelude::*;

verus! {

/// Why a text is not a number of the wanted range.
#[derive(Debug, Clone, Copy, PartialEq, Eq, Structural)]
pub enum ParseFailure {
    /// The text is empty.
    Empty,
    /// The text holds something else than digits after an optional `+`.
    InvalidDigit,
    /// The number is larger than the range allows.
    PosOverflow,
}

pub open spec fn is_digit(c: char) -> bool {
    '0' <= c <= '9'
}

pub open spec fn digit_value(c: char) -> nat {
    (c as u32 - '0' as u32) as nat
}

/// Reads `digits` from the left. The first character that is no digit, or
/// that takes the number above `max`, decides the failure.
pub open spec fn parse_digits(digits: Seq<char>, max: nat) -> Result<nat, ParseFailure>
    decreases digits.len(),
{
    if digits.len() == 0 {
        Ok(0)
    } else {
        match parse_digits(digits.drop_last(), max) {
            Err(failure) => Err(failure),
            Ok(value) => if !is_digit(digits.last()) {
                Err(ParseFailure::InvalidDigit)
            } else if value * 10 + digit_value(digits.last()) > max {
                Err(ParseFailure::PosOverflow)
            } else {
                Ok(value * 10 + digit_value(digits.last()))
            },
        }
    }
}

/// The number that `text` denotes in decimal, within `0..=max`: an optional
/// `+`, then at least one digit, and nothing else.
pub open spec fn parse_decimal(text: Seq<char>, max: nat) -> Result<nat, ParseFailure> {
    if text.len() == 0 {
        Err(ParseFailure::Empty)
    } else if text[0] == '+' {
        if text.len() == 1 {
            Err(ParseFailure::InvalidDigit)
        } else {
            parse_digits(text.skip(1), max)
        }
    } else {
        parse_digits(text, max)
    }
}

/// The character of the digit `d`.
pub open spec fn digit_char(d: nat) -> char
    recommends
        d < 10,
{
    if d == 0 {
        '0'
    } else if d == 1 {
        '1'
    } else if d == 2 {
        '2'
    } else if d == 3 {
        '3'
    } else if d == 4 {
        '4'
    } else if d == 5 {
        '5'
    } else if d == 6 {
        '6'
    } else if d == 7 {
        '7'
    } else if d == 8 {
        '8'
    } else {
        '9'
    }
}

/// `n` in decimal, without sign or leading zeros.
pub open spec fn decimal(n: nat) -> Seq<char>
    decreases n,
{
    if n < 10 {
        seq![digit_char(n)]
    } else {
        decimal(n / 10).push(digit_char(n % 10))
    }
}

/// A parsed number as a machine integer.
pub open spec fn in_u32(parsed: Result<nat, ParseFailure>) -> Result<u32, ParseFailure> {
    match parsed {
        Ok(value) => Ok(value as u32),
        Err(failure) => Err(failure),
    }
}

/// Parses `text` as a decimal number of at most `max`.
pub fn parse_number(text: &str, max: u32) -> (parsed: Result<u32, ParseFailure>)
    ensures
        parsed == in_u32(parse_decimal(text@, max as nat)),
{
    let len = text.unicode_len();
    if len == 0 {
        return Err(ParseFailure::Empty);
    }
    let start: usize = if text.get_char(0) == '+' {
        1
    } else {
        0
    };
    if start == len {
        return Err(ParseFailure::InvalidDigit);
    }
    let ghost digits = text@.skip(start as int);
    assert(start == 0 ==> digits == text@);
    let mut value: u32 = 0;
    let mut i: usize = start;
    assert(digits.take(0) == Seq::<char>::empty());
    while i < len
        invariant
            start <= i <= len,
            start < len,
            len == text@.len(),
            start <= 1,
            digits == text@.skip(start as int),
            parse_decimal(text@, max as nat) == parse_digits(digits, max as nat),
            value <= max,
            parse_digits(digits.take(i - start), max as nat) is Ok,
            parse_digits(digits.take(i - start), max as nat)->Ok_0 == value,
        decreases len - i,
    {
        let c = text.get_char(i);
        proof {
            let read = digits.take(i - start + 1);
            assert(read.drop_last() == digits.take(i - start));
            assert(read.last() == c);
            if i + 1 == len {
                assert(read == digits);
            }
        }
        if c < '0' || c > '9' {
            proof {
                lemma_failure_stays(digits, (i - start + 1) as nat, max as nat);
            }
            return Err(ParseFailure::InvalidDigit);
        }
        let d: u32 = c as u32 - '0' as u32;
        if d > max || value > (max - d) / 10 {
            proof {
                assert(value * 10 + d > max) by (nonlinear_arith)
                    requires
                        d > max || value > (max - d) / 10,
                        value >= 0,
                        d >= 0,
                ;
                lemma_failure_stays(digits, (i - start + 1) as nat, max as nat);
            }
            return Err(ParseFailure::PosOverflow);
        }
        assert(value * 10 + d <= max) by (nonlinear_arith)
            requires
                value <= (max - d) / 10,
                d <= 9,
                value >= 0,
                max >= d,
        ;
        value = value * 10 + d;
        i += 1;
    }
    assert(digits.take(i - start) == digits);
    Ok(value)
}

/// The text of the digit `d`.
fn digit_text(d: u32) -> (text: &'static str)
    requires
        d < 10,
    ensures
        text@ == seq![digit_char(d as nat)],
{
    proof {
        reveal_strlit("0");
        reveal_strlit("1");
        reveal_strlit("2");
        reveal_strlit("3");
        reveal_strlit("4");
        reveal_strlit("5");
        reveal_strlit("6");
        reveal_strlit("7");
        reveal_strlit("8");
        reveal_strlit("9");
    }
    if d == 0 {
        "0"
    } else if d == 1 {
        "1"
    } else if d == 2 {
        "2"
    } else if d == 3 {
        "3"
    } else if d == 4 {
        "4"
    } else if d == 5 {
        "5"
    } else if d == 6 {
        "6"
    } else if d == 7 {
        "7"
    } else if d == 8 {
        "8"
    } else {
        "9"
    }
}

/// Writes `n` in decimal.
pub fn decimal_text(n: u32) -> (text: String)
    ensures
        text@ == decimal(n as nat),
    decreases n,
{
    if n < 10 {
        digit_text(n).to_owned()
    } else {
        let mut text = decimal_text(n / 10);
        text.append(digit_text(n % 10));
        text
    }
}

/// A failure on a prefix of the digits is the failure of the whole.
proof fn lemma_failure_stays(digits: Seq<char>, read: nat, max: nat)
    requires
        read <= digits.len(),
        parse_digits(digits.take(read as int), max) is Err,
    ensures
        parse_digits(digits, max) == parse_digits(digits.take(read as int), max),
    decreases digits.len() - read,
{
    if read < digits.len() {
        let longer = digits.take(read + 1 as int);
        assert(longer.drop_last() == digits.take(read as int));
        lemma_failure_stays(digits, read + 1, max);
    } else {
        assert(digits.take(read as int) == digits);
    }
}

} // verus!
