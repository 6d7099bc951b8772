use vstd::prelude::*;
use vstd::string::*;
use crate::error::{ErrorView, ParseError};
use crate::text::chars_of;

verus! {

/// The value of a hexadecimal digit, if `c` is one.
pub open spec fn hex_digit(c: char) -> Option<u8> {
    if '0' <= c && c <= '9' {
        Some((c as u32 - '0' as u32) as u8)
    } else if 'a' <= c && c <= 'f' {
        Some((c as u32 - 'a' as u32 + 10) as u8)
    } else if 'A' <= c && c <= 'F' {
        Some((c as u32 - 'A' as u32 + 10) as u8)
    } else {
        None
    }
}

/// The byte that two characters write in hexadecimal: two digits, or a plus
/// sign and one digit.
pub open spec fn hex_pair(high: char, low: char) -> Option<u8> {
    match hex_digit(low) {
        None => None,
        Some(l) => if high == '+' {
            Some(l)
        } else {
            match hex_digit(high) {
                None => None,
                Some(h) => Some((h * 16 + l) as u8),
            }
        },
    }
}

/// The position of the first character of `text` at or after `from` that is
/// no `#`, or the end.
pub open spec fn after_hashes(text: Seq<char>, from: int) -> int
    decreases text.len() - from,
{
    if 0 <= from < text.len() && text[from] == '#' {
        after_hashes(text, from + 1)
    } else {
        from
    }
}

/// The colour that `text` writes: after any `#` at its start, six
/// characters that write the red, green and blue bytes. The colour is
/// opaque. Otherwise the message that says what is wrong.
pub open spec fn colour_of(text: Seq<char>) -> Result<(u8, u8, u8, u8), Seq<char>> {
    let start = after_hashes(text, 0);
    if text.len() - start != 6 {
        Err("Invalid hex color"@)
    } else {
        match hex_pair(text[start], text[start + 1]) {
            None => Err("Invalid red value in hex color"@),
            Some(red) => match hex_pair(text[start + 2], text[start + 3]) {
                None => Err("Invalid green value in hex color"@),
                Some(green) => match hex_pair(text[start + 4], text[start + 5]) {
                    None => Err("Invalid blue value in hex color"@),
                    Some(blue) => Ok((red, green, blue, 255u8)),
                },
            },
        }
    }
}

/// The value of a hexadecimal digit, if `c` is one.
fn hex_digit_value(c: char) -> (value: Option<u8>)
    ensures
        value == hex_digit(c),
{
    if '0' <= c && c <= '9' {
        Some((c as u32 - '0' as u32) as u8)
    } else if 'a' <= c && c <= 'f' {
        Some((c as u32 - 'a' as u32 + 10) as u8)
    } else if 'A' <= c && c <= 'F' {
        Some((c as u32 - 'A' as u32 + 10) as u8)
    } else {
        None
    }
}

/// The byte that two characters write in hexadecimal.
fn hex_pair_value(high: char, low: char) -> (value: Option<u8>)
    ensures
        value == hex_pair(high, low),
{
    match hex_digit_value(low) {
        None => None,
        Some(l) => {
            if high == '+' {
                Some(l)
            } else {
                match hex_digit_value(high) {
                    None => None,
                    Some(h) => Some(h * 16 + l),
                }
            }
        },
    }
}

/// Reads a colour such as `#ff8800`. The result holds red, green, blue and
/// the alpha byte 255.
pub fn hex_to_rgba(hex: &str, line: usize) -> (colour: Result<[u8; 4], ParseError>)
    ensures
        match colour {
            Ok(c) => colour_of(hex@) == Ok::<(u8, u8, u8, u8), Seq<char>>((c[0], c[1], c[2], c[3])),
            Err(e) => colour_of(hex@) is Err && e@ == (ErrorView::GeneralError {
                line,
                message: colour_of(hex@)->Err_0,
            }),
        },
{
    let v = chars_of(hex);
    let mut start: usize = 0;
    while start < v.len() && v[start] == '#'
        invariant
            start <= v.len(),
            after_hashes(v@, start as int) == after_hashes(v@, 0),
        decreases v.len() - start,
    {
        start += 1;
    }
    if v.len() - start != 6 {
        return Err(
            ParseError::GeneralError { line, message: String::from_str("Invalid hex color") },
        );
    }
    let red = match hex_pair_value(v[start], v[start + 1]) {
        Some(red) => red,
        None => {
            return Err(
                ParseError::GeneralError {
                    line,
                    message: String::from_str("Invalid red value in hex color"),
                },
            );
        },
    };
    let green = match hex_pair_value(v[start + 2], v[start + 3]) {
        Some(green) => green,
        None => {
            return Err(
                ParseError::GeneralError {
                    line,
                    message: String::from_str("Invalid green value in hex color"),
                },
            );
        },
    };
    let blue = match hex_pair_value(v[start + 4], v[start + 5]) {
        Some(blue) => blue,
        None => {
            return Err(
                ParseError::GeneralError {
                    line,
                    message: String::from_str("Invalid blue value in hex color"),
                },
            );
        },
    };
    Ok([red, green, blue, 255])
}

} // verus!
