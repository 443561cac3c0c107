//! A minimal 3x5 bitmap font for digit and label rendering.

use vstd::prelude::*;

verus! {

/// The 3x5 glyph of a character, one row per byte with the low three
/// bits used, top row first.  Unknown characters render as a centred
/// dot.
pub fn char_glyph(c: char) -> (r: [u8; 5]) {
    match c {
        '0' => [0b111, 0b101, 0b101, 0b101, 0b111],
        '1' => [0b010, 0b110, 0b010, 0b010, 0b111],
        '2' => [0b111, 0b001, 0b111, 0b100, 0b111],
        '3' => [0b111, 0b001, 0b111, 0b001, 0b111],
        '4' => [0b101, 0b101, 0b111, 0b001, 0b001],
        '5' => [0b111, 0b100, 0b111, 0b001, 0b111],
        '6' => [0b111, 0b100, 0b111, 0b101, 0b111],
        '7' => [0b111, 0b001, 0b001, 0b001, 0b001],
        '8' => [0b111, 0b101, 0b111, 0b101, 0b111],
        '9' => [0b111, 0b101, 0b111, 0b001, 0b111],
        'a' | 'A' => [0b111, 0b101, 0b111, 0b101, 0b101],
        'b' | 'B' => [0b110, 0b101, 0b110, 0b101, 0b110],
        'c' | 'C' => [0b111, 0b100, 0b100, 0b100, 0b111],
        'd' | 'D' => [0b110, 0b101, 0b101, 0b101, 0b110],
        'e' | 'E' => [0b111, 0b100, 0b111, 0b100, 0b111],
        'f' | 'F' => [0b111, 0b100, 0b111, 0b100, 0b100],
        'g' | 'G' => [0b111, 0b100, 0b101, 0b101, 0b111],
        'h' | 'H' => [0b101, 0b101, 0b111, 0b101, 0b101],
        'i' | 'I' => [0b111, 0b010, 0b010, 0b010, 0b111],
        'j' | 'J' => [0b001, 0b001, 0b001, 0b101, 0b111],
        'k' | 'K' => [0b101, 0b101, 0b110, 0b101, 0b101],
        'l' | 'L' => [0b100, 0b100, 0b100, 0b100, 0b111],
        'm' | 'M' => [0b101, 0b111, 0b101, 0b101, 0b101],
        'n' | 'N' => [0b111, 0b101, 0b101, 0b101, 0b101],
        'o' | 'O' => [0b111, 0b101, 0b101, 0b101, 0b111],
        'p' | 'P' => [0b111, 0b101, 0b111, 0b100, 0b100],
        'r' | 'R' => [0b110, 0b101, 0b110, 0b101, 0b101],
        's' | 'S' => [0b111, 0b100, 0b111, 0b001, 0b111],
        't' | 'T' => [0b111, 0b010, 0b010, 0b010, 0b010],
        'u' | 'U' => [0b101, 0b101, 0b101, 0b101, 0b111],
        'v' | 'V' => [0b101, 0b101, 0b101, 0b010, 0b010],
        'w' | 'W' => [0b101, 0b101, 0b101, 0b111, 0b101],
        'x' | 'X' => [0b101, 0b101, 0b010, 0b101, 0b101],
        'y' | 'Y' => [0b101, 0b101, 0b111, 0b010, 0b010],
        'z' | 'Z' => [0b111, 0b001, 0b010, 0b100, 0b111],
        '/' => [0b001, 0b001, 0b010, 0b100, 0b100],
        '-' => [0b000, 0b000, 0b111, 0b000, 0b000],
        '.' => [0b000, 0b000, 0b000, 0b000, 0b010],
        ',' => [0b000, 0b000, 0b000, 0b010, 0b100],
        ':' => [0b000, 0b010, 0b000, 0b010, 0b000],
        '=' => [0b000, 0b111, 0b000, 0b111, 0b000],
        '+' => [0b000, 0b010, 0b111, 0b010, 0b000],
        ' ' => [0b000, 0b000, 0b000, 0b000, 0b000],
        _ => [0b000, 0b000, 0b010, 0b000, 0b000],
    }
}

} // verus!
