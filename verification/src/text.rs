//! The textual form of an instruction word, as an interactive front end
//! supplies it: one line holding exactly two two-digit hexadecimal byte
//! tokens separated by one space, for example `F5 07`.
//!
//! [`to_raw_instruction`] turns such a line into the raw byte pair that the
//! decoder takes; any malformed line is rejected with `None` before decoding
//! is ever attempted.

use vstd::prelude::*;
use vstd::string::StringSliceAdditionalSpecFns;

verus! {

/// Whether a byte is the ASCII code of a hexadecimal digit, in either case.
pub open spec fn is_hex_digit(b: u8) -> bool {
    ||| 0x30 <= b <= 0x39  // '0' ..= '9'
    ||| 0x41 <= b <= 0x46  // 'A' ..= 'F'
    ||| 0x61 <= b <= 0x66  // 'a' ..= 'f'
}

/// The numeric value of the hexadecimal digit with the given ASCII code.
pub open spec fn hex_digit_value(b: u8) -> u8
    recommends
        is_hex_digit(b),
{
    if 0x30 <= b <= 0x39 {
        (b - 0x30) as u8
    } else if 0x41 <= b <= 0x46 {
        (b - 0x41 + 10) as u8
    } else if 0x61 <= b <= 0x66 {
        (b - 0x61 + 10) as u8
    } else {
        0
    }
}

/// The byte pair a line stands for: defined exactly when the line is five
/// bytes long, its middle byte is one space, and the remaining four bytes are
/// hexadecimal digits — two per instruction byte, high digit first.
pub open spec fn spec_raw_instruction(line: Seq<u8>) -> Option<(u8, u8)> {
    if line.len() == 5 && line[2] == 0x20 && is_hex_digit(line[0]) && is_hex_digit(line[1])
        && is_hex_digit(line[3]) && is_hex_digit(line[4]) {
        Some(
            (
                (hex_digit_value(line[0]) as int * 16 + hex_digit_value(line[1]) as int) as u8,
                (hex_digit_value(line[3]) as int * 16 + hex_digit_value(line[4]) as int) as u8,
            ),
        )
    } else {
        None
    }
}

/// Parse one ASCII hexadecimal digit, accepting both cases.
fn hex_digit(b: u8) -> (result: Option<u8>)
    ensures
        result is Some <==> is_hex_digit(b),
        result matches Some(value) ==> value == hex_digit_value(b) && value < 16,
{
    if 0x30 <= b && b <= 0x39 {
        Some(b - 0x30)
    } else if 0x41 <= b && b <= 0x46 {
        Some(b - 0x41 + 10)
    } else if 0x61 <= b && b <= 0x66 {
        Some(b - 0x61 + 10)
    } else {
        None
    }
}

/// Turn one input line into the raw `(high byte, low byte)` pair for the
/// decoder. A line is accepted exactly when it is five bytes long and splits
/// into two well-formed two-digit hexadecimal byte tokens around a single
/// space; every other line yields `None`.
pub fn to_raw_instruction(input_string: &str) -> (result: Option<(u8, u8)>)
    ensures
        result == spec_raw_instruction(input_string.spec_bytes()),
{
    let line: &[u8] = input_string.as_bytes();
    if line.len() != 5 {
        return None;
    }
    if line[2] != 0x20 {
        return None;
    }
    let high_first = hex_digit(line[0]);
    let high_second = hex_digit(line[1]);
    let low_first = hex_digit(line[3]);
    let low_second = hex_digit(line[4]);
    match (high_first, high_second, low_first, low_second) {
        (Some(h1), Some(h2), Some(l1), Some(l2)) => Some((h1 * 16 + h2, l1 * 16 + l2)),
        _ => None,
    }
}

} // verus!
