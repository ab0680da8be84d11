use crate::text::chars_of;
use vstd::prelude::*;
use vstd::string::StringExecFns;

verus! {

/// A colour as three 8-bit channels.
#[derive(Clone, Copy, Debug, PartialEq, Eq, Structural)]
pub struct Rgb {
    pub r: u8,
    pub g: u8,
    pub b: u8,
}

/// The value of a hexadecimal digit of either case, if `c` is one.
pub open spec fn hex_digit_value(c: char) -> Option<int> {
    if '0' <= c <= '9' {
        Some(c as int - '0' as int)
    } else if 'a' <= c <= 'f' {
        Some(c as int - 'a' as int + 10)
    } else if 'A' <= c <= 'F' {
        Some(c as int - 'A' as int + 10)
    } else {
        None
    }
}

/// The lower-case hexadecimal digit that stands for `value`, for `value` under 16.
pub open spec fn hex_digit(value: int) -> char {
    if value == 0 {
        '0'
    } else if value == 1 {
        '1'
    } else if value == 2 {
        '2'
    } else if value == 3 {
        '3'
    } else if value == 4 {
        '4'
    } else if value == 5 {
        '5'
    } else if value == 6 {
        '6'
    } else if value == 7 {
        '7'
    } else if value == 8 {
        '8'
    } else if value == 9 {
        '9'
    } else if value == 10 {
        'a'
    } else if value == 11 {
        'b'
    } else if value == 12 {
        'c'
    } else if value == 13 {
        'd'
    } else if value == 14 {
        'e'
    } else {
        'f'
    }
}

/// `c` with an upper-case hexadecimal letter turned to lower case.
pub open spec fn lower_hex(c: char) -> char {
    match hex_digit_value(c) {
        Some(value) => hex_digit(value),
        None => c,
    }
}

/// The value of the two hexadecimal digits `high` and `low`, if both are digits.
pub open spec fn channel_of(high: char, low: char) -> Option<u8> {
    match (hex_digit_value(high), hex_digit_value(low)) {
        (Some(h), Some(l)) => Some((16 * h + l) as u8),
        _ => None,
    }
}

/// The colour that a `#rrggbb` literal denotes: exactly seven characters, a
/// `#` and six hexadecimal digits of either case. Anything else is malformed.
pub open spec fn color_of_hex(text: Seq<char>) -> Option<Rgb> {
    if text.len() == 7 && text[0] == '#' {
        match (
            channel_of(text[1], text[2]),
            channel_of(text[3], text[4]),
            channel_of(text[5], text[6]),
        ) {
            (Some(r), Some(g), Some(b)) => Some(Rgb { r, g, b }),
            _ => None,
        }
    } else {
        None
    }
}

/// The lower-case `#rrggbb` literal of a colour.
pub open spec fn hex_of_color(color: Rgb) -> Seq<char> {
    seq![
        '#',
        hex_digit(color.r as int / 16),
        hex_digit(color.r as int % 16),
        hex_digit(color.g as int / 16),
        hex_digit(color.g as int % 16),
        hex_digit(color.b as int / 16),
        hex_digit(color.b as int % 16),
    ]
}

fn digit_value(c: char) -> (value: Option<u8>)
    ensures
        value is Some == hex_digit_value(c) is Some,
        value matches Some(v) ==> hex_digit_value(c) == Some(v as int) && v < 16,
{
    if '0' <= c && c <= '9' {
        Some((c as u32 - '0' as u32) as u8)
    } else if 'a' <= c && c <= 'f' {
        Some((c as u32 - 'a' as u32 + 10) as u8)
    } else if 'A' <= c && c <= 'F' {
        Some((c as u32 - 'A' as u32 + 10) as u8)
    } else {
        None
    }
}

fn channel(high: char, low: char) -> (value: Option<u8>)
    ensures
        value == channel_of(high, low),
{
    match digit_value(high) {
        Some(h) => match digit_value(low) {
            Some(l) => Some(16 * h + l),
            None => None,
        },
        None => None,
    }
}

fn digit_text(value: u8) -> (text: &'static str)
    requires
        value < 16,
    ensures
        text@ == seq![hex_digit(value as int)],
{
    proof {
        reveal_strlit("0");
        reveal_strlit("1");
        reveal_strlit("2");
        reveal_strlit("3");
        reveal_strlit("4");
        reveal_strlit("5");
        reveal_strlit("6");
        reveal_strlit("7");
        reveal_strlit("8");
        reveal_strlit("9");
        reveal_strlit("a");
        reveal_strlit("b");
        reveal_strlit("c");
        reveal_strlit("d");
        reveal_strlit("e");
        reveal_strlit("f");
    }
    let text = if value == 0 {
        "0"
    } else if value == 1 {
        "1"
    } else if value == 2 {
        "2"
    } else if value == 3 {
        "3"
    } else if value == 4 {
        "4"
    } else if value == 5 {
        "5"
    } else if value == 6 {
        "6"
    } else if value == 7 {
        "7"
    } else if value == 8 {
        "8"
    } else if value == 9 {
        "9"
    } else if value == 10 {
        "a"
    } else if value == 11 {
        "b"
    } else if value == 12 {
        "c"
    } else if value == 13 {
        "d"
    } else if value == 14 {
        "e"
    } else {
        "f"
    };
    assert(text@ =~= seq![hex_digit(value as int)]);
    text
}

impl Rgb {
    /// Reads a `#rrggbb` literal; `None` for a malformed one.
    pub fn parse_hex(text: &str) -> (color: Option<Rgb>)
        ensures
            color == color_of_hex(text@),
    {
        let chars = chars_of(text);
        if chars.len() != 7 || chars[0] != '#' {
            return None;
        }
        match channel(chars[1], chars[2]) {
            Some(r) => match channel(chars[3], chars[4]) {
                Some(g) => match channel(chars[5], chars[6]) {
                    Some(b) => Some(Rgb { r, g, b }),
                    None => None,
                },
                None => None,
            },
            None => None,
        }
    }

    /// Writes the colour as a lower-case `#rrggbb` literal.
    pub fn to_hex(&self) -> (text: String)
        ensures
            text@ == hex_of_color(*self),
    {
        proof {
            reveal_strlit("#");
        }
        let mut text = String::from_str("#");
        text.append(digit_text(self.r / 16));
        text.append(digit_text(self.r % 16));
        text.append(digit_text(self.g / 16));
        text.append(digit_text(self.g % 16));
        text.append(digit_text(self.b / 16));
        text.append(digit_text(self.b % 16));
        assert(text@ =~= hex_of_color(*self));
        text
    }
}

/// Reading a well-formed colour literal and writing the colour again gives the
/// literal back, with its letters in lower case.
pub proof fn lemma_hex_round_trip(text: Seq<char>)
    requires
        color_of_hex(text) is Some,
    ensures
        hex_of_color(color_of_hex(text)->0) == text.map_values(|c: char| lower_hex(c)),
{
    let color = color_of_hex(text)->0;
    lemma_channel_digits(text[1], text[2]);
    lemma_channel_digits(text[3], text[4]);
    lemma_channel_digits(text[5], text[6]);
    assert(hex_of_color(color) =~= text.map_values(|c: char| lower_hex(c)));
}

/// Writing a colour and reading the literal again gives the colour back.
pub proof fn lemma_color_round_trip(color: Rgb)
    ensures
        color_of_hex(hex_of_color(color)) == Some(color),
{
    lemma_digit_of_value(color.r as int / 16);
    lemma_digit_of_value(color.r as int % 16);
    lemma_digit_of_value(color.g as int / 16);
    lemma_digit_of_value(color.g as int % 16);
    lemma_digit_of_value(color.b as int / 16);
    lemma_digit_of_value(color.b as int % 16);
}

proof fn lemma_digit_of_value(value: int)
    requires
        0 <= value < 16,
    ensures
        hex_digit_value(hex_digit(value)) == Some(value),
{
}

proof fn lemma_channel_digits(high: char, low: char)
    requires
        channel_of(high, low) is Some,
    ensures
        hex_digit(channel_of(high, low)->0 as int / 16) == lower_hex(high),
        hex_digit(channel_of(high, low)->0 as int % 16) == lower_hex(low),
{
}

} // verus!
