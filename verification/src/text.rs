//! Numbers and bytes as text: writing them for URLs and messages, and
//! reading decimal numbers from what the node sends.

use vstd::prelude::*;
use vstd::string::{StrSliceExecFns, StringExecFns};

verus! {

/// The character of a decimal digit.
pub open spec fn digit_char(digit: nat) -> char {
    if digit == 0 {
        '0'
    } else if digit == 1 {
        '1'
    } else if digit == 2 {
        '2'
    } else if digit == 3 {
        '3'
    } else if digit == 4 {
        '4'
    } else if digit == 5 {
        '5'
    } else if digit == 6 {
        '6'
    } else if digit == 7 {
        '7'
    } else if digit == 8 {
        '8'
    } else {
        '9'
    }
}

/// The decimal digit that a character is, if it is one.
pub open spec fn digit_value(character: char) -> Option<nat> {
    if character == '0' {
        Some(0)
    } else if character == '1' {
        Some(1)
    } else if character == '2' {
        Some(2)
    } else if character == '3' {
        Some(3)
    } else if character == '4' {
        Some(4)
    } else if character == '5' {
        Some(5)
    } else if character == '6' {
        Some(6)
    } else if character == '7' {
        Some(7)
    } else if character == '8' {
        Some(8)
    } else if character == '9' {
        Some(9)
    } else {
        None
    }
}

/// A number in decimal, without sign or leading zeros.
pub open spec fn decimal(number: nat) -> Seq<char>
    decreases number,
{
    if number < 10 {
        seq![digit_char(number)]
    } else {
        decimal(number / 10).push(digit_char(number % 10))
    }
}

/// Whether every character of `text` is a decimal digit.
pub open spec fn all_digits(text: Seq<char>) -> bool {
    forall|i: int| 0 <= i < text.len() ==> digit_value(#[trigger] text[i]) is Some
}

/// The number that the decimal digits `digits` stand for.
pub open spec fn digits_value(digits: Seq<char>) -> nat
    decreases digits.len(),
{
    if digits.len() == 0 {
        0
    } else {
        digits_value(digits.drop_last()) * 10 + digit_value(digits.last()).unwrap()
    }
}

/// The digits of a number in text: the text itself, or what follows a single
/// leading `+`.
pub open spec fn unsigned_part(text: Seq<char>) -> Seq<char> {
    if text.len() > 0 && text[0] == '+' {
        text.drop_first()
    } else {
        text
    }
}

/// The number that `text` stands for: an optional `+`, then at least one
/// decimal digit, and nothing else. Leading zeros are allowed.
pub open spec fn parse_decimal(text: Seq<char>) -> Option<nat> {
    let digits = unsigned_part(text);
    if digits.len() > 0 && all_digits(digits) {
        Some(digits_value(digits))
    } else {
        None
    }
}

/// The text of one decimal digit.
fn digit_text(digit: u64) -> (text: &'static str)
    requires
        digit < 10,
    ensures
        text@ == seq![digit_char(digit as nat)],
{
    proof {
        reveal_strlit("0");
        reveal_strlit("1");
        reveal_strlit("2");
        reveal_strlit("3");
        reveal_strlit("4");
        reveal_strlit("5");
        reveal_strlit("6");
        reveal_strlit("7");
        reveal_strlit("8");
        reveal_strlit("9");
    }
    let text = if digit == 0 {
        "0"
    } else if digit == 1 {
        "1"
    } else if digit == 2 {
        "2"
    } else if digit == 3 {
        "3"
    } else if digit == 4 {
        "4"
    } else if digit == 5 {
        "5"
    } else if digit == 6 {
        "6"
    } else if digit == 7 {
        "7"
    } else if digit == 8 {
        "8"
    } else {
        "9"
    };
    assert(text@ =~= seq![digit_char(digit as nat)]);
    text
}

/// Appends `number` in decimal to `text`.
pub fn push_decimal(text: &mut String, number: u64)
    ensures
        final(text)@ == old(text)@ + decimal(number as nat),
    decreases number,
{
    if number >= 10 {
        push_decimal(text, number / 10);
    }
    text.append(digit_text(number % 10));
    assert(text@ =~= old(text)@ + decimal(number as nat));
}

/// `number` in decimal.
pub fn decimal_string(number: u64) -> (text: String)
    ensures
        text@ == decimal(number as nat),
{
    let mut text = String::new();
    push_decimal(&mut text, number);
    assert(Seq::<char>::empty() + decimal(number as nat) =~= decimal(number as nat));
    text
}

/// The character of a hexadecimal digit, in lower case.
pub open spec fn hex_digit_char(digit: nat) -> char {
    if digit < 10 {
        digit_char(digit)
    } else if digit == 10 {
        'a'
    } else if digit == 11 {
        'b'
    } else if digit == 12 {
        'c'
    } else if digit == 13 {
        'd'
    } else if digit == 14 {
        'e'
    } else {
        'f'
    }
}

/// Bytes in hexadecimal: two digits for each byte, the high one first.
pub open spec fn hex(bytes: Seq<u8>) -> Seq<char>
    decreases bytes.len(),
{
    if bytes.len() == 0 {
        Seq::<char>::empty()
    } else {
        hex(bytes.drop_last()).push(hex_digit_char((bytes.last() / 16) as nat)).push(
            hex_digit_char((bytes.last() % 16) as nat),
        )
    }
}

/// The text of one hexadecimal digit.
fn hex_digit_text(digit: u8) -> (text: &'static str)
    requires
        digit < 16,
    ensures
        text@ == seq![hex_digit_char(digit as nat)],
{
    if digit < 10 {
        return digit_text(digit as u64);
    }
    proof {
        reveal_strlit("a");
        reveal_strlit("b");
        reveal_strlit("c");
        reveal_strlit("d");
        reveal_strlit("e");
        reveal_strlit("f");
    }
    let text = if digit == 10 {
        "a"
    } else if digit == 11 {
        "b"
    } else if digit == 12 {
        "c"
    } else if digit == 13 {
        "d"
    } else if digit == 14 {
        "e"
    } else {
        "f"
    };
    assert(text@ =~= seq![hex_digit_char(digit as nat)]);
    text
}

/// Appends `bytes` in hexadecimal to `text`.
pub fn push_hex(text: &mut String, bytes: &[u8])
    ensures
        final(text)@ == old(text)@ + hex(bytes@),
{
    let mut i: usize = 0;
    assert(bytes@.take(0) =~= Seq::<u8>::empty());
    assert(text@ =~= old(text)@ + hex(bytes@.take(0)));
    while i < bytes.len()
        invariant
            i <= bytes@.len(),
            text@ == old(text)@ + hex(bytes@.take(i as int)),
        decreases bytes@.len() - i,
    {
        let byte = bytes[i];
        let ghost before = text@;
        text.append(hex_digit_text(byte / 16));
        text.append(hex_digit_text(byte % 16));
        proof {
            let longer = bytes@.take(i + 1);
            assert(longer.drop_last() =~= bytes@.take(i as int));
            assert(longer.last() == byte);
            assert(text@ =~= old(text)@ + hex(longer));
        }
        i += 1;
    }
    assert(bytes@.take(bytes@.len() as int) =~= bytes@);
}

/// The decimal digit that a character is, if it is one.
fn digit_of(character: char) -> (digit: Option<u64>)
    ensures
        match digit {
            Some(value) => digit_value(character) == Some(value as nat) && value < 10,
            None => digit_value(character) is None,
        },
{
    if character == '0' {
        Some(0)
    } else if character == '1' {
        Some(1)
    } else if character == '2' {
        Some(2)
    } else if character == '3' {
        Some(3)
    } else if character == '4' {
        Some(4)
    } else if character == '5' {
        Some(5)
    } else if character == '6' {
        Some(6)
    } else if character == '7' {
        Some(7)
    } else if character == '8' {
        Some(8)
    } else if character == '9' {
        Some(9)
    } else {
        None
    }
}

/// Digits in front of a number never make it smaller: the value of the first
/// `count` digits is at most the value of all of them.
proof fn lemma_prefix_value(digits: Seq<char>, count: int)
    requires
        0 <= count <= digits.len(),
    ensures
        digits_value(digits.take(count)) <= digits_value(digits),
    decreases digits.len() - count,
{
    if count == digits.len() {
        assert(digits.take(count) =~= digits);
    } else {
        lemma_prefix_value(digits, count + 1);
        let longer = digits.take(count + 1);
        assert(longer.drop_last() =~= digits.take(count));
    }
}

/// Reads a number of 64 bits from text: an optional `+` and decimal digits.
/// Anything else, and a number that does not fit, yields `None`.
pub fn parse_u64(text: &str) -> (number: Option<u64>)
    ensures
        match number {
            Some(value) => parse_decimal(text@) == Some(value as nat),
            None => parse_decimal(text@) is None || parse_decimal(text@).unwrap() > u64::MAX,
        },
{
    let length = text.unicode_len();
    if length == 0 {
        return None;
    }
    let start: usize = if text.get_char(0) == '+' {
        1
    } else {
        0
    };
    if start == length {
        return None;
    }
    let ghost digits = unsigned_part(text@);
    assert(digits =~= text@.subrange(start as int, length as int));
    let mut value: u64 = 0;
    let mut i: usize = start;
    while i < length
        invariant
            start <= i <= length,
            length == text@.len(),
            digits == text@.subrange(start as int, length as int),
            digits == unsigned_part(text@),
            all_digits(digits.take(i - start)),
            value == digits_value(digits.take(i - start)),
        decreases length - i,
    {
        let character = text.get_char(i);
        assert(character == digits[i - start]);
        let ghost longer = digits.take(i - start + 1);
        assert(longer.drop_last() =~= digits.take(i - start));
        assert(longer.last() == character);
        let digit = match digit_of(character) {
            Some(digit) => digit,
            None => {
                assert(digit_value(digits[i - start]) is None);
                return None;
            },
        };
        assert(digits_value(longer) == value * 10 + digit);
        assert(all_digits(longer)) by {
            assert forall|j: int| 0 <= j < longer.len() implies digit_value(
                #[trigger] longer[j],
            ) is Some by {
                if j < i - start {
                    assert(longer[j] == digits.take(i - start)[j]);
                }
            }
        }
        if value > (u64::MAX - digit) / 10 {
            proof {
                if all_digits(digits) {
                    lemma_prefix_value(digits, i - start + 1);
                }
            }
            return None;
        }
        value = value * 10 + digit;
        i += 1;
    }
    assert(digits.take(length - start) =~= digits);
    Some(value)
}

} // verus!
