//! The grammar of the port number that the sidecar reports: an optional plus
//! sign and decimal digits that denote a number of at most 65535.

use vstd::prelude::*;
use vstd::string::*;
use crate::decimal::{
    all_digits, ascii_bytes, decimal_text, decimal_value, is_digit, leading_digits,
    lemma_decimal_text_value, lemma_decimal_value_monotone, lemma_decimal_value_step,
    lemma_leading_digits_bounds, lemma_leading_digits_unique,
};

verus! {

/// Why a text is no port number.
#[derive(Clone, Copy, Debug, PartialEq, Eq, Structural)]
pub enum PortParseError {
    /// The text is empty.
    Empty,
    /// A byte that is no decimal digit stands where a digit is needed. A sign
    /// with nothing behind it and a minus sign are such bytes.
    InvalidDigit,
    /// The digits denote a number above 65535.
    Overflow,
}

impl PortParseError {
    /// The reason in words.
    pub open spec fn reason_spec(self) -> Seq<char> {
        match self {
            PortParseError::Empty => "cannot parse integer from empty string"@,
            PortParseError::InvalidDigit => "invalid digit found in string"@,
            PortParseError::Overflow => "number too large to fit in target type"@,
        }
    }

    /// The reason in words.
    pub fn reason(&self) -> (text: String)
        ensures
            text@ == self.reason_spec(),
    {
        match self {
            PortParseError::Empty => String::from_str("cannot parse integer from empty string"),
            PortParseError::InvalidDigit => String::from_str("invalid digit found in string"),
            PortParseError::Overflow => String::from_str("number too large to fit in target type"),
        }
    }
}

/// The largest port number.
pub const MAX_PORT: u16 = 65535;

/// The byte `+`.
pub const PLUS_SIGN: u8 = 0x2b;

/// The text behind one leading plus sign, where more text follows the sign;
/// else the text itself.
pub open spec fn unsigned_part(text: Seq<u8>) -> Seq<u8> {
    if text.len() >= 2 && text[0] == PLUS_SIGN {
        text.drop_first()
    } else {
        text
    }
}

/// What a text is as a port number.
///
/// The digits in front of the first byte that is no digit decide: if they
/// denote more than 65535 the text overflows, whatever follows; else a byte
/// that is no digit makes the text invalid; else the text is the number.
pub open spec fn parse_port_spec(text: Seq<u8>) -> Result<u16, PortParseError> {
    let digits = unsigned_part(text);
    let run = leading_digits(digits);
    let value = decimal_value(digits.take(run as int));
    if text.len() == 0 {
        Err(PortParseError::Empty)
    } else if value > MAX_PORT {
        Err(PortParseError::Overflow)
    } else if run < digits.len() {
        Err(PortParseError::InvalidDigit)
    } else {
        Ok(value as u16)
    }
}

/// Reads `text` as a port number.
pub fn parse_port(text: &[u8]) -> (r: Result<u16, PortParseError>)
    ensures
        r == parse_port_spec(text@),
{
    let n = text.len();
    if n == 0 {
        return Err(PortParseError::Empty);
    }
    let start: usize = if n >= 2 && text[0] == PLUS_SIGN {
        1
    } else {
        0
    };
    let ghost digits = unsigned_part(text@);
    assert(digits =~= text@.subrange(start as int, n as int));
    let mut i: usize = start;
    let mut acc: u32 = 0;
    while i < n
        invariant
            start <= i <= n,
            n == text@.len(),
            digits == unsigned_part(text@),
            digits == text@.subrange(start as int, n as int),
            forall|j: int| 0 <= j < i - start ==> is_digit(#[trigger] digits[j]),
            acc == decimal_value(digits.take(i - start)),
            acc <= MAX_PORT,
        decreases n - i,
    {
        let b = text[i];
        let ghost k = i - start;
        assert(digits[k] == b);
        if b < 0x30 || b > 0x39 {
            proof {
                lemma_leading_digits_unique(digits, k);
            }
            return Err(PortParseError::InvalidDigit);
        }
        let next: u32 = acc * 10 + (b - 0x30) as u32;
        proof {
            lemma_decimal_value_step(digits, k);
        }
        if next > 65535 {
            proof {
                let run = leading_digits(digits) as int;
                lemma_leading_digits_bounds(digits);
                if run < k + 1 {
                    assert(is_digit(digits[run]));
                }
                lemma_decimal_value_monotone(digits, k + 1, run);
            }
            return Err(PortParseError::Overflow);
        }
        acc = next;
        i += 1;
    }
    proof {
        lemma_leading_digits_unique(digits, digits.len() as int);
        assert(digits.take(digits.len() as int) =~= digits);
    }
    Ok(acc as u16)
}

/// Every port is read back from its decimal notation.
pub proof fn law_port_notation_is_read_back(port: u16)
    ensures
        parse_port_spec(ascii_bytes(decimal_text(port as nat))) == Ok::<u16, PortParseError>(port),
{
    let text = ascii_bytes(decimal_text(port as nat));
    lemma_decimal_text_value(port as nat);
    assert(is_digit(text[0]));
    lemma_leading_digits_unique(text, text.len() as int);
    assert(text.take(text.len() as int) =~= text);
}

/// A text is a port number exactly if, behind one optional plus sign, it
/// consists of one digit or more, and they denote a number of at most 65535;
/// it is then that number.
pub proof fn law_port_texts(text: Seq<u8>)
    ensures
        parse_port_spec(text) is Ok <==> unsigned_part(text).len() >= 1 && all_digits(
            unsigned_part(text),
        ) && decimal_value(unsigned_part(text)) <= MAX_PORT,
        parse_port_spec(text) matches Ok(port) ==> port == decimal_value(unsigned_part(text)),
{
    let digits = unsigned_part(text);
    lemma_leading_digits_bounds(digits);
    if digits.len() >= 1 && all_digits(digits) {
        lemma_leading_digits_unique(digits, digits.len() as int);
    }
    if leading_digits(digits) == digits.len() {
        assert(digits.take(digits.len() as int) =~= digits);
    }
}

} // verus!
