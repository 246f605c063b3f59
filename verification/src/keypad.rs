//! The layout of the keypad on a keyboard: four rows of four keys, from the
//! digit row down, each row starting at the second key of its keyboard row.

use vstd::prelude::*;

verus! {

/// The keys of the pad, row by row from the top left.
pub open spec fn pad_layout() -> Seq<u8> {
    seq![0x1u8, 0x2, 0x3, 0xC, 0x4, 0x5, 0x6, 0xD, 0x7, 0x8, 0x9, 0xE, 0xA, 0x0, 0xB, 0xF]
}

/// The key that a keyboard scancode stands for. Keyboard rows are 14
/// scancodes apart and the pad starts at scancode 2.
pub open spec fn key_of_scancode(scancode: int) -> Option<u8> {
    let row = (scancode - 2) / 14;
    let column = (scancode - 2) % 14;
    if 0 <= row < 4 && column < 4 {
        Some(pad_layout()[row * 4 + column])
    } else {
        None
    }
}

/// Translates a keyboard scancode to the key of the pad that it stands for,
/// if it stands for one.
pub fn translate(scancode: i32) -> (key: Option<u8>)
    ensures
        key == key_of_scancode(scancode as int),
        key matches Some(k) ==> k < 16,
{
    match scancode {
        2 => Some(0x1),
        3 => Some(0x2),
        4 => Some(0x3),
        5 => Some(0xC),
        16 => Some(0x4),
        17 => Some(0x5),
        18 => Some(0x6),
        19 => Some(0xD),
        30 => Some(0x7),
        31 => Some(0x8),
        32 => Some(0x9),
        33 => Some(0xE),
        44 => Some(0xA),
        45 => Some(0x0),
        46 => Some(0xB),
        47 => Some(0xF),
        _ => None,
    }
}

} // verus!
