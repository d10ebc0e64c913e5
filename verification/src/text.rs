//! Text helpers: comparing names and writing numbers as the diagnostics
//! show them.

use vstd::prelude::*;
use vstd::string::*;

verus! {

/// `String::push` appends the character to the end of the string.
pub assume_specification[ String::push ](s: &mut String, ch: char)
    ensures
        final(s)@ == old(s)@.push(ch),
;

/// The character of a digit below sixteen, letters in upper case.
pub open spec fn digit_char(digit: int) -> char {
    if digit < 10 {
        ('0' as int + digit) as char
    } else {
        ('A' as int + digit - 10) as char
    }
}

/// A byte as two hexadecimal digits.
pub open spec fn hex_byte(value: u8) -> Seq<char> {
    seq![digit_char(value as int / 16), digit_char(value as int % 16)]
}

/// A word as four hexadecimal digits.
pub open spec fn hex_word(value: u16) -> Seq<char> {
    hex_byte((value / 256) as u8) + hex_byte((value % 256) as u8)
}

/// A number in decimal, without leading zeroes.
pub open spec fn decimal(value: nat) -> Seq<char>
    decreases value,
{
    if value < 10 {
        seq![digit_char(value as int)]
    } else {
        decimal(value / 10) + seq![digit_char(value as int % 10)]
    }
}

/// Whether two texts hold the same characters.
pub fn same_text(a: &str, b: &str) -> (same: bool)
    ensures
        same == (a@ == b@),
{
    let n = a.unicode_len();
    if n != b.unicode_len() {
        return false;
    }
    let mut i: usize = 0;
    while i < n
        invariant
            i <= n,
            n == a@.len(),
            n == b@.len(),
            forall|j: int| 0 <= j < i ==> a@[j] == b@[j],
        decreases n - i,
    {
        if a.get_char(i) != b.get_char(i) {
            return false;
        }
        i += 1;
    }
    assert(a@ =~= b@);
    true
}

fn digit(value: u8) -> (c: char)
    requires
        value < 16,
    ensures
        c == digit_char(value as int),
{
    if value < 10 {
        (48 + value) as char
    } else {
        (55 + value) as char
    }
}

/// Appends a byte as two hexadecimal digits.
pub fn push_hex_byte(text: &mut String, value: u8)
    ensures
        final(text)@ == old(text)@ + hex_byte(value),
{
    text.push(digit(value / 16));
    text.push(digit(value % 16));
    assert(text@ =~= old(text)@ + hex_byte(value));
}

/// Appends a word as four hexadecimal digits.
pub fn push_hex_word(text: &mut String, value: u16)
    ensures
        final(text)@ == old(text)@ + hex_word(value),
{
    push_hex_byte(text, (value / 256) as u8);
    push_hex_byte(text, (value % 256) as u8);
    assert(text@ =~= old(text)@ + hex_word(value));
}

/// Appends a number in decimal.
pub fn push_decimal(text: &mut String, value: u8)
    ensures
        final(text)@ == old(text)@ + decimal(value as nat),
{
    reveal_with_fuel(decimal, 3);
    if value >= 100 {
        text.push(digit(value / 100));
    }
    if value >= 10 {
        text.push(digit((value / 10) % 10));
    }
    text.push(digit(value % 10));
    assert(text@ =~= old(text)@ + decimal(value as nat));
}

} // verus!
