//! Decimal notation: the digits of a number as bytes, as the sidecar prints
//! them, and as text, as a command line takes them.

use vstd::prelude::*;
use vstd::string::*;

verus! {

/// Whether `b` is an ASCII decimal digit.
pub open spec fn is_digit(b: u8) -> bool {
    0x30 <= b <= 0x39
}

/// The number that the digit `b` stands for.
pub open spec fn digit_value(b: u8) -> nat {
    (b - 0x30) as nat
}

/// Whether every byte of `s` is a decimal digit.
pub open spec fn all_digits(s: Seq<u8>) -> bool {
    forall|i: int| 0 <= i < s.len() ==> is_digit(#[trigger] s[i])
}

/// The number that a run of digits denotes, most significant digit first.
/// The empty run denotes zero.
pub open spec fn decimal_value(digits: Seq<u8>) -> nat
    decreases digits.len(),
{
    if digits.len() == 0 {
        0
    } else {
        decimal_value(digits.drop_last()) * 10 + digit_value(digits.last())
    }
}

/// The length of the longest prefix of `text` that consists of digits.
pub open spec fn leading_digits(text: Seq<u8>) -> nat
    decreases text.len(),
{
    if text.len() == 0 || !is_digit(text[0]) {
        0
    } else {
        1 + leading_digits(text.drop_first())
    }
}

/// The character for a single digit `d`. Nine and all above it give `9`.
pub open spec fn digit_char(d: nat) -> char {
    if d == 0 {
        '0'
    } else if d == 1 {
        '1'
    } else if d == 2 {
        '2'
    } else if d == 3 {
        '3'
    } else if d == 4 {
        '4'
    } else if d == 5 {
        '5'
    } else if d == 6 {
        '6'
    } else if d == 7 {
        '7'
    } else if d == 8 {
        '8'
    } else {
        '9'
    }
}

/// The decimal notation of `n`: no sign, no leading zero, `"0"` for zero.
pub open spec fn decimal_text(n: nat) -> Seq<char>
    decreases n,
{
    if n < 10 {
        seq![digit_char(n)]
    } else {
        decimal_text(n / 10).push(digit_char(n % 10))
    }
}

/// The bytes of a text whose characters are all ASCII.
pub open spec fn ascii_bytes(text: Seq<char>) -> Seq<u8> {
    Seq::new(text.len(), |i: int| text[i] as u8)
}

/// `leading_digits` counts a prefix of digits, and stops at the end of the
/// text or in front of a byte that is no digit.
pub proof fn lemma_leading_digits_bounds(text: Seq<u8>)
    ensures
        leading_digits(text) <= text.len(),
        forall|i: int| 0 <= i < leading_digits(text) ==> is_digit(#[trigger] text[i]),
        leading_digits(text) < text.len() ==> !is_digit(text[leading_digits(text) as int]),
    decreases text.len(),
{
    if text.len() == 0 || !is_digit(text[0]) {
    } else {
        let rest = text.drop_first();
        lemma_leading_digits_bounds(rest);
        assert forall|i: int| 0 <= i < leading_digits(text) implies is_digit(
            #[trigger] text[i],
        ) by {
            if i > 0 {
                assert(text[i] == rest[i - 1]);
            }
        }
        if leading_digits(text) < text.len() {
            assert(text[leading_digits(text) as int] == rest[leading_digits(rest) as int]);
        }
    }
}

/// A prefix of digits that ends at the end of the text, or in front of a byte
/// that is no digit, is the one that `leading_digits` counts.
pub proof fn lemma_leading_digits_unique(text: Seq<u8>, k: int)
    requires
        0 <= k <= text.len(),
        forall|i: int| 0 <= i < k ==> is_digit(#[trigger] text[i]),
        k < text.len() ==> !is_digit(text[k]),
    ensures
        leading_digits(text) == k,
    decreases text.len(),
{
    if k > 0 {
        let rest = text.drop_first();
        assert(is_digit(text[0]));
        assert forall|i: int| 0 <= i < k - 1 implies is_digit(#[trigger] rest[i]) by {
            assert(rest[i] == text[i + 1]);
        }
        if k - 1 < rest.len() {
            assert(rest[k - 1] == text[k]);
        }
        lemma_leading_digits_unique(rest, k - 1);
    }
}

/// One more digit multiplies the value by ten and adds the digit.
pub proof fn lemma_decimal_value_step(digits: Seq<u8>, k: int)
    requires
        0 <= k < digits.len(),
    ensures
        decimal_value(digits.take(k + 1)) == decimal_value(digits.take(k)) * 10 + digit_value(
            digits[k],
        ),
{
    let longer = digits.take(k + 1);
    assert(longer.drop_last() =~= digits.take(k));
    assert(longer.last() == digits[k]);
}

/// Among prefixes of digits, a longer one denotes no smaller a number.
pub proof fn lemma_decimal_value_monotone(digits: Seq<u8>, a: int, b: int)
    requires
        0 <= a <= b <= digits.len(),
        forall|i: int| 0 <= i < b ==> is_digit(#[trigger] digits[i]),
    ensures
        decimal_value(digits.take(a)) <= decimal_value(digits.take(b)),
    decreases b - a,
{
    if a < b {
        lemma_decimal_value_monotone(digits, a, b - 1);
        lemma_decimal_value_step(digits, b - 1);
        assert(is_digit(digits[b - 1]));
    }
}

/// Reading the decimal notation of a number gives the number back: its
/// notation consists of digits, and their value is the number.
pub proof fn lemma_decimal_text_value(n: nat)
    ensures
        decimal_text(n).len() >= 1,
        all_digits(ascii_bytes(decimal_text(n))),
        decimal_value(ascii_bytes(decimal_text(n))) == n,
    decreases n,
{
    let text = decimal_text(n);
    let bytes = ascii_bytes(text);
    if n < 10 {
        assert(bytes.len() == 1);
        assert(bytes[0] == 0x30 + n);
        assert(bytes.drop_last().len() == 0);
        assert(decimal_value(bytes.drop_last()) == 0);
    } else {
        let head = decimal_text(n / 10);
        lemma_decimal_text_value(n / 10);
        assert(bytes.drop_last() =~= ascii_bytes(head));
        assert(bytes.last() == 0x30 + n % 10);
        assert forall|i: int| 0 <= i < bytes.len() implies is_digit(#[trigger] bytes[i]) by {
            if i < head.len() {
                assert(bytes[i] == ascii_bytes(head)[i]);
            }
        }
    }
}

/// The one-character text of the digit `d`.
pub fn digit_text(d: u8) -> (r: &'static str)
    ensures
        r@ == seq![digit_char(d as nat)],
{
    proof {
        reveal_strlit("0");
        reveal_strlit("1");
        reveal_strlit("2");
        reveal_strlit("3");
        reveal_strlit("4");
        reveal_strlit("5");
        reveal_strlit("6");
        reveal_strlit("7");
        reveal_strlit("8");
        reveal_strlit("9");
    }
    let r = if d == 0 {
        "0"
    } else if d == 1 {
        "1"
    } else if d == 2 {
        "2"
    } else if d == 3 {
        "3"
    } else if d == 4 {
        "4"
    } else if d == 5 {
        "5"
    } else if d == 6 {
        "6"
    } else if d == 7 {
        "7"
    } else if d == 8 {
        "8"
    } else {
        "9"
    };
    assert(r@ =~= seq![digit_char(d as nat)]);
    r
}

/// Appends the decimal notation of `n` to `out`.
pub fn append_decimal(out: &mut String, n: u32)
    ensures
        final(out)@ == old(out)@ + decimal_text(n as nat),
    decreases n,
{
    if n >= 10 {
        append_decimal(out, n / 10);
    }
    let ghost before = out@;
    out.append(digit_text((n % 10) as u8));
    proof {
        let d = digit_char((n % 10) as nat);
        if n >= 10 {
            assert(before + seq![d] =~= old(out)@ + decimal_text((n / 10) as nat).push(d));
        }
    }
}

/// The decimal notation of `n` as a string.
pub fn decimal_string(n: u32) -> (s: String)
    ensures
        s@ == decimal_text(n as nat),
{
    let mut s = String::new();
    append_decimal(&mut s, n);
    assert(s@ =~= decimal_text(n as nat));
    s
}

} // verus!
