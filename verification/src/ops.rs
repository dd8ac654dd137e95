//! The instruction set: what each source byte means, and the ordered symbol
//! table that self-modification draws from.

use vstd::prelude::*;
use vstd::std_specs::convert::FromSpecImpl;

verus! {

/// How many symbols the language has; also the modulus of `Replace`.
pub const NUM_COMMANDS: usize = 26;

/// One decoded instruction.
#[derive(Debug, Clone, Copy, PartialEq, Eq, Structural)]
pub enum Operations {
    /// `>`: data pointer += 1.
    IncrementPointer,
    /// `<`: data pointer -= 1.
    DecrementPointer,
    /// `[`: mark := instruction pointer.
    PlaceMark,
    /// `]`: instruction pointer := mark.
    GotoMark,
    /// `j`: pass over the next byte if the current cell is zero.
    SkipIfZero,
    /// `i`: read a value into the current cell.
    Input,
    /// `o`: emit the current cell as a character.
    Output,
    /// `+`: current cell += 1.
    IncrementValue,
    /// `-`: current cell -= 1.
    DecrementValue,
    /// `^`: current cell += 10.
    IncrementValue10,
    /// `v`: current cell -= 10.
    DecrementValue10,
    /// `1` to `9`: replay the last executed operation that many times.
    Repeat(usize),
    /// `r`: overwrite the current source byte with the symbol the cell selects.
    Replace,
    /// `0`: current cell := 0.
    SetZero,
    /// `c`: copy register := current cell.
    CopyValue,
    /// `p`: current cell := copy register.
    PasteValue,
    /// `(`: comment depth += 1.
    BeginComment,
    /// `)`: comment depth -= 1.
    EndComment,
    /// Any other byte: no effect.
    Nop,
}

/// Why an execution was aborted.
#[derive(Debug, Clone, Copy, PartialEq, Eq, Structural)]
pub enum Fault {
    /// `]` with no mark placed.
    UnsetMarkJump,
    /// A repeat whose target is itself a repeat.
    InvalidRepeatTarget,
    /// `)` at comment depth zero.
    CommentUnderflow,
    /// `r` with the instruction pointer past the end of the buffer.
    SelfModifyOutOfBounds,
    /// `o` on a cell that is no Unicode scalar value.
    InvalidCodePoint,
    /// `i`: this core has no input source.
    UnimplementedInput,
    /// `>` or `<` that would leave the tape.
    PointerOutOfRange,
}

/// The meaning of a source byte. Every byte outside the table is a no-op.
pub open spec fn decode(b: u8) -> Operations {
    if b == 0x3e {  // `>`
        Operations::IncrementPointer
    } else if b == 0x3c {  // `<`
        Operations::DecrementPointer
    } else if b == 0x5b {  // `[`
        Operations::PlaceMark
    } else if b == 0x5d {  // `]`
        Operations::GotoMark
    } else if b == 0x6a {  // `j`
        Operations::SkipIfZero
    } else if b == 0x69 {  // `i`
        Operations::Input
    } else if b == 0x6f {  // `o`
        Operations::Output
    } else if b == 0x2b {  // `+`
        Operations::IncrementValue
    } else if b == 0x2d {  // `-`
        Operations::DecrementValue
    } else if b == 0x5e {  // `^`
        Operations::IncrementValue10
    } else if b == 0x76 {  // `v`
        Operations::DecrementValue10
    } else if 0x31 <= b <= 0x39 {  // `1` to `9`
        Operations::Repeat((b - 0x30) as usize)
    } else if b == 0x72 {  // `r`
        Operations::Replace
    } else if b == 0x30 {  // `0`
        Operations::SetZero
    } else if b == 0x63 {  // `c`
        Operations::CopyValue
    } else if b == 0x70 {  // `p`
        Operations::PasteValue
    } else if b == 0x28 {  // `(`
        Operations::BeginComment
    } else if b == 0x29 {  // `)`
        Operations::EndComment
    } else {
        Operations::Nop
    }
}

/// The meaning of a character: that of its byte where it has one in ASCII,
/// a no-op elsewhere.
pub open spec fn decode_char(c: char) -> Operations {
    if c as u32 <= 0x7f {
        decode(c as u32 as u8)
    } else {
        Operations::Nop
    }
}

/// The symbol table in its fixed order: `> < [ ] j i o + - ^ v 1..9 r 0 c p ( )`.
pub open spec fn symbol(key: int) -> u8
    recommends
        0 <= key < NUM_COMMANDS,
{
    if key == 0 {
        0x3e  // `>`
    } else if key == 1 {
        0x3c  // `<`
    } else if key == 2 {
        0x5b  // `[`
    } else if key == 3 {
        0x5d  // `]`
    } else if key == 4 {
        0x6a  // `j`
    } else if key == 5 {
        0x69  // `i`
    } else if key == 6 {
        0x6f  // `o`
    } else if key == 7 {
        0x2b  // `+`
    } else if key == 8 {
        0x2d  // `-`
    } else if key == 9 {
        0x5e  // `^`
    } else if key == 10 {
        0x76  // `v`
    } else if 11 <= key <= 19 {
        (0x31 + (key - 11)) as u8  // `1` to `9`
    } else if key == 20 {
        0x72  // `r`
    } else if key == 21 {
        0x30  // `0`
    } else if key == 22 {
        0x63  // `c`
    } else if key == 23 {
        0x70  // `p`
    } else if key == 24 {
        0x28  // `(`
    } else {
        0x29  // `)`
    }
}

/// The symbol that a cell holding `value` selects: the table entry at the
/// value's non-negative residue modulo 26.
pub open spec fn replacement(value: i32) -> u8 {
    symbol(value as int % (NUM_COMMANDS as int))
}

impl From<u8> for Operations {
    fn from(b: u8) -> (op: Operations) {
        match b {
            0x3e => Operations::IncrementPointer, // `>`
            0x3c => Operations::DecrementPointer, // `<`
            0x5b => Operations::PlaceMark, // `[`
            0x5d => Operations::GotoMark, // `]`
            0x6a => Operations::SkipIfZero, // `j`
            0x69 => Operations::Input, // `i`
            0x6f => Operations::Output, // `o`
            0x2b => Operations::IncrementValue, // `+`
            0x2d => Operations::DecrementValue, // `-`
            0x5e => Operations::IncrementValue10, // `^`
            0x76 => Operations::DecrementValue10, // `v`
            0x31 => Operations::Repeat(1), // `1`
            0x32 => Operations::Repeat(2), // `2`
            0x33 => Operations::Repeat(3), // `3`
            0x34 => Operations::Repeat(4), // `4`
            0x35 => Operations::Repeat(5), // `5`
            0x36 => Operations::Repeat(6), // `6`
            0x37 => Operations::Repeat(7), // `7`
            0x38 => Operations::Repeat(8), // `8`
            0x39 => Operations::Repeat(9), // `9`
            0x72 => Operations::Replace, // `r`
            0x30 => Operations::SetZero, // `0`
            0x63 => Operations::CopyValue, // `c`
            0x70 => Operations::PasteValue, // `p`
            0x28 => Operations::BeginComment, // `(`
            0x29 => Operations::EndComment, // `)`
            _ => Operations::Nop,
        }
    }
}

impl FromSpecImpl<u8> for Operations {
    open spec fn obeys_from_spec() -> bool {
        true
    }

    open spec fn from_spec(b: u8) -> Operations {
        decode(b)
    }
}

impl From<char> for Operations {
    fn from(c: char) -> (op: Operations) {
        let code: u32 = c as u32;
        if code <= 0x7f {
            Operations::from(code as u8)
        } else {
            Operations::Nop
        }
    }
}

impl FromSpecImpl<char> for Operations {
    open spec fn obeys_from_spec() -> bool {
        true
    }

    open spec fn from_spec(c: char) -> Operations {
        decode_char(c)
    }
}

/// The table entry for a reduced key.
pub fn symbol_for_key(key: u8) -> (b: u8)
    requires
        key < NUM_COMMANDS,
    ensures
        b == symbol(key as int),
{
    match key {
        0 => 0x3e, // `>`
        1 => 0x3c, // `<`
        2 => 0x5b, // `[`
        3 => 0x5d, // `]`
        4 => 0x6a, // `j`
        5 => 0x69, // `i`
        6 => 0x6f, // `o`
        7 => 0x2b, // `+`
        8 => 0x2d, // `-`
        9 => 0x5e, // `^`
        10 => 0x76, // `v`
        11 => 0x31, // `1`
        12 => 0x32, // `2`
        13 => 0x33, // `3`
        14 => 0x34, // `4`
        15 => 0x35, // `5`
        16 => 0x36, // `6`
        17 => 0x37, // `7`
        18 => 0x38, // `8`
        19 => 0x39, // `9`
        20 => 0x72, // `r`
        21 => 0x30, // `0`
        22 => 0x63, // `c`
        23 => 0x70, // `p`
        24 => 0x28, // `(`
        _ => 0x29, // `)`
    }
}

} // verus!
