//! The instruction decoder: splits a 16-bit instruction word into its family
//! and the operand fields that the instruction set shares.

use vstd::prelude::*;

verus! {

/// An instruction word together with the fields read from it.
#[derive(Clone, Copy, Debug, PartialEq, Eq, Structural)]
pub struct Instruction {
    /// The word as fetched, high byte first.
    pub word: u16,
    /// The topmost four bits.
    pub family: u8,
    /// Register index X, bits 8 to 11.
    pub x: usize,
    /// Register index Y, bits 4 to 7.
    pub y: usize,
    /// Immediate nibble N, bits 0 to 3.
    pub n: u8,
    /// Immediate byte NN, bits 0 to 7.
    pub nn: u8,
    /// Address NNN, bits 0 to 11.
    pub nnn: u16,
}

/// The fields of an instruction word, by positional arithmetic on its four
/// hexadecimal digits.
pub open spec fn decoded(word: u16) -> Instruction {
    Instruction {
        word,
        family: (word / 0x1000) as u8,
        x: (word / 0x100 % 0x10) as usize,
        y: (word / 0x10 % 0x10) as usize,
        n: (word % 0x10) as u8,
        nn: (word % 0x100) as u8,
        nnn: (word % 0x1000) as u16,
    }
}

/// The word made of two bytes, the first being the more significant.
pub open spec fn word_of(high: u8, low: u8) -> u16 {
    (high * 0x100 + low) as u16
}

/// Joins two bytes fetched from consecutive addresses into an instruction
/// word, the first byte being the more significant.
pub fn join_bytes(high: u8, low: u8) -> (word: u16)
    ensures
        word == word_of(high, low),
{
    let word: u16 = ((high as u16) << 8) | (low as u16);
    assert(((high as u16) << 8) | (low as u16) == (high as u16) * 0x100 + (low as u16))
        by (bit_vector);
    word
}

/// Decodes an instruction word. Every word decodes; whether it names an
/// instruction is for the execution engine to judge.
pub fn decode(word: u16) -> (ins: Instruction)
    ensures
        ins == decoded(word),
        ins.family < 16,
        ins.x < 16,
        ins.y < 16,
        ins.n < 16,
        ins.nnn < 0x1000,
{
    let family: u16 = word >> 12;
    let x: u16 = (word >> 8) & 0x000F;
    let y: u16 = (word >> 4) & 0x000F;
    let n: u16 = word & 0x000F;
    let nn: u16 = word & 0x00FF;
    let nnn: u16 = word & 0x0FFF;
    assert(word >> 12 == word / 0x1000) by (bit_vector);
    assert((word >> 8) & 0x000F == word / 0x100 % 0x10) by (bit_vector);
    assert((word >> 4) & 0x000F == word / 0x10 % 0x10) by (bit_vector);
    assert(word & 0x000F == word % 0x10) by (bit_vector);
    assert(word & 0x00FF == word % 0x100) by (bit_vector);
    assert(word & 0x0FFF == word % 0x1000) by (bit_vector);
    Instruction {
        word,
        family: family as u8,
        x: x as usize,
        y: y as usize,
        n: n as u8,
        nn: nn as u8,
        nnn,
    }
}

} // verus!
