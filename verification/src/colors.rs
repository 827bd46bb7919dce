//! Colors by name or by hexadecimal code, as four 8-bit channels.

use vstd::prelude::*;
use vstd::string::{is_ascii, StringSliceAdditionalSpecFns};
use vstd::utf8::is_char_boundary;

verus! {

/// The byte of the hash sign that opens a color code.
pub const HASH: u8 = 0x23;

/// The byte of the plus sign.
pub const PLUS: u8 = 0x2b;

/// The value of the hexadecimal digit that a byte spells.
pub open spec fn hex_digit(byte: u8) -> Option<int> {
    if 0x30 <= byte <= 0x39 {
        Some(byte - 0x30)
    } else if 0x61 <= byte <= 0x66 {
        Some(byte - 0x61 + 10)
    } else if 0x41 <= byte <= 0x46 {
        Some(byte - 0x41 + 10)
    } else {
        None
    }
}

/// The byte that two bytes of text spell in hexadecimal: two digits, or a
/// plus sign and one digit. Anything else spells none.
pub open spec fn hex_byte(high: u8, low: u8) -> Option<u8> {
    match (hex_digit(high), hex_digit(low)) {
        (Some(sixteens), Some(ones)) => Some((16 * sixteens + ones) as u8),
        (None, Some(ones)) => if high == PLUS {
            Some(ones as u8)
        } else {
            None
        },
        _ => None,
    }
}

/// The channel that the two bytes of `bytes` from `from` on spell, zero
/// where they spell none.
pub open spec fn channel_of(bytes: Seq<u8>, from: int) -> u8 {
    match hex_byte(bytes[from], bytes[from + 1]) {
        Some(byte) => byte,
        None => 0,
    }
}

/// True for a text that has the shape of a color code: a hash sign and six
/// or eight more bytes.
pub open spec fn is_code(bytes: Seq<u8>) -> bool {
    (bytes.len() == 7 || bytes.len() == 9) && bytes[0] == HASH
}

/// True when a code-shaped text can be cut into its channels: each channel
/// starts where a character starts.
pub open spec fn cuts_at_characters(bytes: Seq<u8>) -> bool {
    &&& is_char_boundary(bytes, 1)
    &&& is_char_boundary(bytes, 3)
    &&& is_char_boundary(bytes, 5)
    &&& bytes.len() == 9 ==> is_char_boundary(bytes, 7)
}

/// The color that `value` names, as red, green, blue and alpha.
pub open spec fn rgba8_of(value: &str) -> Seq<u8> {
    let bytes = value.spec_bytes();
    if value@ == "white"@ {
        seq![255u8, 255u8, 255u8, 255u8]
    } else if value@ == "red"@ {
        seq![255u8, 0u8, 0u8, 255u8]
    } else if value@ == "transparent"@ || value@ == "none"@ {
        seq![0u8, 0u8, 0u8, 0u8]
    } else if is_code(bytes) && bytes.len() == 7 {
        seq![channel_of(bytes, 1), channel_of(bytes, 3), channel_of(bytes, 5), 255u8]
    } else if is_code(bytes) {
        seq![channel_of(bytes, 1), channel_of(bytes, 3), channel_of(bytes, 5), channel_of(bytes, 7)]
    } else {
        seq![255u8, 255u8, 255u8, 255u8]
    }
}

/// The value of the hexadecimal digit that a byte spells.
fn digit_value(byte: u8) -> (value: Option<u8>)
    ensures
        match hex_digit(byte) {
            Some(digit) => value == Some(digit as u8) && digit < 16,
            None => value is None,
        },
{
    if 0x30 <= byte && byte <= 0x39 {
        Some(byte - 0x30)
    } else if 0x61 <= byte && byte <= 0x66 {
        Some(byte - 0x61 + 10)
    } else if 0x41 <= byte && byte <= 0x46 {
        Some(byte - 0x41 + 10)
    } else {
        None
    }
}

/// The byte that two bytes of text spell in hexadecimal, as a parse of the
/// two as a number in base sixteen reads them.
pub fn parse_hex_byte(high: u8, low: u8) -> (byte: Option<u8>)
    ensures
        byte == hex_byte(high, low),
{
    match (digit_value(high), digit_value(low)) {
        (Some(sixteens), Some(ones)) => Some(16 * sixteens + ones),
        (None, Some(ones)) => if high == PLUS {
            Some(ones)
        } else {
            None
        },
        _ => None,
    }
}

/// The channel that the two bytes of `bytes` from `from` on spell.
fn channel(bytes: &[u8], from: usize) -> (byte: u8)
    requires
        from + 1 < bytes@.len(),
    ensures
        byte == channel_of(bytes@, from as int),
{
    match parse_hex_byte(bytes[from], bytes[from + 1]) {
        Some(byte) => byte,
        None => 0,
    }
}

/// The color that `value` names, as red, green, blue and alpha: one of the
/// names white, red, transparent and none, or a hash sign followed by six
/// or eight hexadecimal digits, two to the channel, with full alpha where
/// there are six. A channel that is not spelled in hexadecimal is zero; a
/// text that is neither a name nor a code is white. A code-shaped text has
/// to be cut into channels where characters start, which every text of
/// plain ASCII is.
pub fn to_rgba8(value: &str) -> (color: [u8; 4])
    requires
        is_code(value.spec_bytes()) ==> is_ascii(value) || cuts_at_characters(value.spec_bytes()),
    ensures
        color@ == rgba8_of(value),
{
    let name: String = value.to_owned();
    let bytes: &[u8] = value.as_bytes();
    let color: [u8; 4] = if name == "white".to_owned() {
        [255, 255, 255, 255]
    } else if name == "red".to_owned() {
        [255, 0, 0, 255]
    } else if name == "transparent".to_owned() || name == "none".to_owned() {
        [0, 0, 0, 0]
    } else if bytes.len() == 7 && bytes[0] == HASH {
        [channel(bytes, 1), channel(bytes, 3), channel(bytes, 5), 255]
    } else if bytes.len() == 9 && bytes[0] == HASH {
        [channel(bytes, 1), channel(bytes, 3), channel(bytes, 5), channel(bytes, 7)]
    } else {
        [255, 255, 255, 255]
    };
    assert(color@ =~= rgba8_of(value));
    color
}

} // verus!
