//! The built-in hexadecimal digit font.
use vstd::prelude::*;

verus! {

/// Address in memory where the font for digit 0 starts.
pub const FONT_BASE: u16 = 0x50;

/// The five rows of the sprite for hexadecimal digit `key`.
pub open spec fn glyph(key: u8) -> Seq<u8> {
    if key == 0 {
        seq![0xF0u8, 0x90, 0x90, 0x90, 0xF0]
    } else if key == 1 {
        seq![0x20u8, 0x60, 0x20, 0x20, 0x70]
    } else if key == 2 {
        seq![0xF0u8, 0x10, 0xF0, 0x80, 0xF0]
    } else if key == 3 {
        seq![0xF0u8, 0x10, 0xF0, 0x10, 0xF0]
    } else if key == 4 {
        seq![0x90u8, 0x90, 0xF0, 0x10, 0x10]
    } else if key == 5 {
        seq![0xF0u8, 0x80, 0xF0, 0x10, 0xF0]
    } else if key == 6 {
        seq![0xF0u8, 0x80, 0xF0, 0x90, 0xF0]
    } else if key == 7 {
        seq![0xF0u8, 0x10, 0x20, 0x40, 0x40]
    } else if key == 8 {
        seq![0xF0u8, 0x90, 0xF0, 0x90, 0xF0]
    } else if key == 9 {
        seq![0xF0u8, 0x90, 0xF0, 0x10, 0xF0]
    } else if key == 0xA {
        seq![0xF0u8, 0x90, 0xF0, 0x90, 0x90]
    } else if key == 0xB {
        seq![0xE0u8, 0x90, 0xE0, 0x90, 0xE0]
    } else if key == 0xC {
        seq![0xF0u8, 0x80, 0x80, 0x80, 0xF0]
    } else if key == 0xD {
        seq![0xE0u8, 0x90, 0x90, 0x90, 0xE0]
    } else if key == 0xE {
        seq![0xF0u8, 0x80, 0xF0, 0x80, 0xF0]
    } else {
        seq![0xF0u8, 0x80, 0xF0, 0x80, 0x80]
    }
}

/// The sprite of one hexadecimal digit.
pub struct Sprite {
    pub key: u8,
    pub hex: [u8; 5],
}

impl Sprite {
    /// The font sprite of digit `key`.
    pub fn new(key: u8) -> (s: Sprite)
        requires
            key < 16,
        ensures
            s.key == key,
            s.hex@ == glyph(key),
    {
        let hex: [u8; 5] = match key {
            0 => [0xF0, 0x90, 0x90, 0x90, 0xF0],
            1 => [0x20, 0x60, 0x20, 0x20, 0x70],
            2 => [0xF0, 0x10, 0xF0, 0x80, 0xF0],
            3 => [0xF0, 0x10, 0xF0, 0x10, 0xF0],
            4 => [0x90, 0x90, 0xF0, 0x10, 0x10],
            5 => [0xF0, 0x80, 0xF0, 0x10, 0xF0],
            6 => [0xF0, 0x80, 0xF0, 0x90, 0xF0],
            7 => [0xF0, 0x10, 0x20, 0x40, 0x40],
            8 => [0xF0, 0x90, 0xF0, 0x90, 0xF0],
            9 => [0xF0, 0x90, 0xF0, 0x10, 0xF0],
            0xA => [0xF0, 0x90, 0xF0, 0x90, 0x90],
            0xB => [0xE0, 0x90, 0xE0, 0x90, 0xE0],
            0xC => [0xF0, 0x80, 0x80, 0x80, 0xF0],
            0xD => [0xE0, 0x90, 0x90, 0x90, 0xE0],
            0xE => [0xF0, 0x80, 0xF0, 0x80, 0xF0],
            _ => [0xF0, 0x80, 0xF0, 0x80, 0x80],
        };
        assert(hex@ =~= glyph(key));
        Sprite { key, hex }
    }
}

} // verus!
