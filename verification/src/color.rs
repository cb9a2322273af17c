//! Colors written as text: a number sign followed by hexadecimal digits.

use vstd::prelude::*;
use vstd::string::StringExecFns;

verus! {

/// The upper-case hexadecimal digit for a value below sixteen.
pub open spec fn hex_char(digit: nat) -> char
    recommends
        digit < 16,
{
    if digit == 0 {
        '0'
    } else if digit == 1 {
        '1'
    } else if digit == 2 {
        '2'
    } else if digit == 3 {
        '3'
    } else if digit == 4 {
        '4'
    } else if digit == 5 {
        '5'
    } else if digit == 6 {
        '6'
    } else if digit == 7 {
        '7'
    } else if digit == 8 {
        '8'
    } else if digit == 9 {
        '9'
    } else if digit == 10 {
        'A'
    } else if digit == 11 {
        'B'
    } else if digit == 12 {
        'C'
    } else if digit == 13 {
        'D'
    } else if digit == 14 {
        'E'
    } else {
        'F'
    }
}

/// The upper-case hexadecimal digits of `value`, most significant first and
/// without leading zeros; zero is the single digit `0`.
pub open spec fn hex_digits(value: nat) -> Seq<char>
    decreases value,
{
    if value < 16 {
        seq![hex_char(value)]
    } else {
        hex_digits(value / 16).push(hex_char(value % 16))
    }
}

/// `count` blanks.
pub open spec fn blanks(count: nat) -> Seq<char> {
    Seq::new(count, |i: int| ' ')
}

/// The least number of digits a color is written with.
pub const COLOR_WIDTH: usize = 6;

/// A color as text: `#`, then the hexadecimal digits of `value`, preceded by
/// blanks if there are fewer than six of them.
pub open spec fn color_text(value: u32) -> Seq<char> {
    let digits = hex_digits(value as nat);
    let missing = if digits.len() < COLOR_WIDTH {
        (COLOR_WIDTH - digits.len()) as nat
    } else {
        0
    };
    seq!['#'] + blanks(missing) + digits
}

/// A value has between one and eight hexadecimal digits.
pub proof fn lemma_hex_digits_len(value: nat)
    ensures
        1 <= hex_digits(value).len(),
        value < 0x10 ==> hex_digits(value).len() == 1,
        value <= 0xffff_ffff ==> hex_digits(value).len() <= 8,
        0x10_0000 <= value <= 0xff_ffff ==> hex_digits(value).len() == 6,
    decreases value,
{
    reveal_with_fuel(hex_digits, 9);
}

fn hex_digit(digit: u32) -> (text: &'static str)
    requires
        digit < 16,
    ensures
        text@ == seq![hex_char(digit as nat)],
{
    proof {
        reveal_strlit("0");
        reveal_strlit("1");
        reveal_strlit("2");
        reveal_strlit("3");
        reveal_strlit("4");
        reveal_strlit("5");
        reveal_strlit("6");
        reveal_strlit("7");
        reveal_strlit("8");
        reveal_strlit("9");
        reveal_strlit("A");
        reveal_strlit("B");
        reveal_strlit("C");
        reveal_strlit("D");
        reveal_strlit("E");
        reveal_strlit("F");
    }
    let text = if digit == 0 {
        "0"
    } else if digit == 1 {
        "1"
    } else if digit == 2 {
        "2"
    } else if digit == 3 {
        "3"
    } else if digit == 4 {
        "4"
    } else if digit == 5 {
        "5"
    } else if digit == 6 {
        "6"
    } else if digit == 7 {
        "7"
    } else if digit == 8 {
        "8"
    } else if digit == 9 {
        "9"
    } else if digit == 10 {
        "A"
    } else if digit == 11 {
        "B"
    } else if digit == 12 {
        "C"
    } else if digit == 13 {
        "D"
    } else if digit == 14 {
        "E"
    } else {
        "F"
    };
    assert(text@ =~= seq![hex_char(digit as nat)]);
    text
}

/// The number of hexadecimal digits of `value`.
fn hex_len(value: u32) -> (len: usize)
    ensures
        len == hex_digits(value as nat).len(),
        1 <= len <= 8,
    decreases value,
{
    proof {
        lemma_hex_digits_len(value as nat);
    }
    if value < 16 {
        1
    } else {
        proof {
            lemma_hex_digits_len((value / 16) as nat);
        }
        hex_len(value / 16) + 1
    }
}

/// Appends the hexadecimal digits of `value` to `text`.
fn push_hex(text: &mut String, value: u32)
    ensures
        final(text)@ == old(text)@ + hex_digits(value as nat),
    decreases value,
{
    if value >= 16 {
        push_hex(text, value / 16);
    }
    text.append(hex_digit(value % 16));
    assert(final(text)@ =~= old(text)@ + hex_digits(value as nat));
}

/// Writes a color as text, as a terminal theme expects it.
pub fn hex_color(value: u32) -> (text: String)
    ensures
        text@ == color_text(value),
{
    proof {
        reveal_strlit("#");
    }
    let mut text = String::from_str("#");
    let len = hex_len(value);
    let mut written: usize = len;
    while written < COLOR_WIDTH
        invariant
            len <= written,
            len == hex_digits(value as nat).len(),
            written <= COLOR_WIDTH || written == len,
            text@ == seq!['#'] + blanks((written - len) as nat),
        decreases COLOR_WIDTH - written,
    {
        proof {
            reveal_strlit(" ");
        }
        text.append(" ");
        written = written + 1;
        assert(text@ =~= seq!['#'] + blanks((written - len) as nat));
    }
    push_hex(&mut text, value);
    text
}

} // verus!
