//! Decimal numerals: reading an unsigned number from text and writing one.

use vstd::prelude::*;
use vstd::string::StringExecFns;

verus! {

/// Why a text is not the numeral of a number within range.
#[derive(Clone, Copy, Debug, PartialEq, Eq, Structural)]
pub enum NumberError {
    /// The text is empty.
    Empty,
    /// The text holds something other than decimal digits after an
    /// optional leading `+`, or nothing but that sign.
    InvalidDigit,
    /// The digits denote a number above the largest one allowed.
    TooLarge,
}

pub open spec fn is_digit(c: char) -> bool {
    '0' <= c && c <= '9'
}

#[verifier::inline]
pub open spec fn digit_value(c: char) -> nat {
    (c as u32 - '0' as u32) as nat
}

/// Reads `digits` from left to right onto the number `acc` read so far. The
/// first character that is no digit, or that takes the number above `max`,
/// decides the error.
pub open spec fn read_digits(digits: Seq<char>, acc: nat, max: nat) -> Result<nat, NumberError>
    decreases digits.len(),
{
    if digits.len() == 0 {
        Ok(acc)
    } else if !is_digit(digits[0]) {
        Err(NumberError::InvalidDigit)
    } else if acc * 10 + digit_value(digits[0]) > max {
        Err(NumberError::TooLarge)
    } else {
        read_digits(digits.drop_first(), acc * 10 + digit_value(digits[0]), max)
    }
}

/// The number that `text` denotes, if it is one of at most `max`: decimal
/// digits, at least one, after an optional `+`.
pub open spec fn parse_unsigned(text: Seq<char>, max: nat) -> Result<nat, NumberError> {
    if text.len() == 0 {
        Err(NumberError::Empty)
    } else {
        let digits = if text[0] == '+' {
            text.drop_first()
        } else {
            text
        };
        if digits.len() == 0 {
            Err(NumberError::InvalidDigit)
        } else {
            read_digits(digits, 0, max)
        }
    }
}

/// Reads the decimal numeral `text` of a number of at most `max`.
pub fn parse_decimal(text: &str, max: u32) -> (parsed: Result<u32, NumberError>)
    ensures
        match parsed {
            Ok(value) => parse_unsigned(text@, max as nat) == Ok::<nat, NumberError>(value as nat),
            Err(error) => parse_unsigned(text@, max as nat) == Err::<nat, NumberError>(error),
        },
{
    let mut acc: u64 = 0;
    let mut consumed_any = false;
    let mut sign_only = false;
    for c in it: text.chars()
        invariant
            it.seq() == text@,
            acc <= max,
            consumed_any == (it.index() > 0),
            !consumed_any ==> acc == 0 && !sign_only,
            sign_only ==> it.index() == 1 && text@[0] == '+' && acc == 0,
            consumed_any && !sign_only ==> parse_unsigned(text@, max as nat) == read_digits(
                text@.skip(it.index() as int),
                acc as nat,
                max as nat,
            ),
    {
        let ghost at = it.index() as int;
        proof {
            assert(text@.skip(at)[0] == c);
            assert(text@.skip(at).drop_first() == text@.skip(at + 1));
            assert(text@.skip(0) == text@);
            assert(text@.drop_first() == text@.skip(1));
        }
        if !consumed_any && c == '+' {
            sign_only = true;
        } else {
            if !(c >= '0' && c <= '9') {
                return Err(NumberError::InvalidDigit);
            }
            let digit: u64 = (c as u32 - '0' as u32) as u64;
            let next: u64 = acc * 10 + digit;
            if next > max as u64 {
                return Err(NumberError::TooLarge);
            }
            acc = next;
            sign_only = false;
        }
        consumed_any = true;
    }
    if !consumed_any {
        Err(NumberError::Empty)
    } else if sign_only {
        proof {
            assert(text@.drop_first().len() == 0);
        }
        Err(NumberError::InvalidDigit)
    } else {
        proof {
            assert(text@.skip(text@.len() as int).len() == 0);
        }
        Ok(acc as u32)
    }
}

/// The character of a decimal digit.
pub open spec fn digit_char(digit: nat) -> char {
    if digit == 0 {
        '0'
    } else if digit == 1 {
        '1'
    } else if digit == 2 {
        '2'
    } else if digit == 3 {
        '3'
    } else if digit == 4 {
        '4'
    } else if digit == 5 {
        '5'
    } else if digit == 6 {
        '6'
    } else if digit == 7 {
        '7'
    } else if digit == 8 {
        '8'
    } else {
        '9'
    }
}

/// The decimal numeral of `n`, without leading zeros.
pub open spec fn numeral(n: nat) -> Seq<char>
    decreases n,
{
    if n < 10 {
        seq![digit_char(n)]
    } else {
        numeral(n / 10).push(digit_char(n % 10))
    }
}

fn digit_text(digit: u64) -> (text: &'static str)
    requires
        digit < 10,
    ensures
        text@ == seq![digit_char(digit as nat)],
{
    proof {
        reveal_strlit("0");
        reveal_strlit("1");
        reveal_strlit("2");
        reveal_strlit("3");
        reveal_strlit("4");
        reveal_strlit("5");
        reveal_strlit("6");
        reveal_strlit("7");
        reveal_strlit("8");
        reveal_strlit("9");
    }
    let text = if digit == 0 {
        "0"
    } else if digit == 1 {
        "1"
    } else if digit == 2 {
        "2"
    } else if digit == 3 {
        "3"
    } else if digit == 4 {
        "4"
    } else if digit == 5 {
        "5"
    } else if digit == 6 {
        "6"
    } else if digit == 7 {
        "7"
    } else if digit == 8 {
        "8"
    } else {
        "9"
    };
    assert(text@ =~= seq![digit_char(digit as nat)]);
    text
}

/// Appends the decimal numeral of `n` to `text`.
pub fn push_decimal(text: &mut String, n: u64)
    ensures
        final(text)@ == old(text)@ + numeral(n as nat),
    decreases n,
{
    if n >= 10 {
        push_decimal(text, n / 10);
    }
    text.append(digit_text(n % 10));
    proof {
        if n >= 10 {
            assert(old(text)@ + numeral(n as nat / 10) + seq![digit_char(n as nat % 10)] =~= old(
                text,
            )@ + numeral(n as nat));
        }
    }
}

impl NumberError {
    /// The text that tells a person why the numeral was refused.
    pub open spec fn message_text(self) -> Seq<char> {
        match self {
            NumberError::Empty => "cannot parse integer from empty string"@,
            NumberError::InvalidDigit => "invalid digit found in string"@,
            NumberError::TooLarge => "number too large to fit in target type"@,
        }
    }

    pub fn message(&self) -> (text: &'static str)
        ensures
            text@ == self.message_text(),
    {
        match self {
            NumberError::Empty => "cannot parse integer from empty string",
            NumberError::InvalidDigit => "invalid digit found in string",
            NumberError::TooLarge => "number too large to fit in target type",
        }
    }
}

} // verus!
