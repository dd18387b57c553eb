//! The instruction set: one opcode byte followed by a fixed number of
//! operand bytes.
//!
//! | Opcode | Byte | Length |
//! |--------|------|--------|
//! | NoOp | 0x00 | 1 |
//! | LdA16 | 0x01 | 3 |
//! | LdB16 | 0x02 | 3 |
//! | StA16 | 0x03 | 3 |
//! | StB16 | 0x04 | 3 |
//! | LdA8 | 0x05 | 2 |
//! | LdB8 | 0x06 | 2 |
//! | StA8 | 0x07 | 2 |
//! | StB8 | 0x08 | 2 |
//! | Add | 0x09 | 1 |
//! | Sub | 0x0A | 1 |
//! | NegA | 0x0B | 1 |
//! | NegB | 0x0C | 1 |
//! | IncA | 0x0D | 1 |
//! | IncB | 0x0E | 1 |
//! | PassA | 0x0F | 1 |
//! | PassB | 0x10 | 1 |
//! | And | 0x11 | 1 |
//! | Or | 0x12 | 1 |
//! | XOr | 0x13 | 1 |
//! | BitFlpA | 0x14 | 1 |
//! | BitFlpB | 0x15 | 1 |
//! | ShftL | 0x16 | 1 |
//! | ShftR | 0x17 | 1 |
//! | UShftL | 0x18 | 1 |
//! | UShftR | 0x19 | 1 |
//! | RotL | 0x1A | 1 |
//! | RotR | 0x1B | 1 |
use vstd::prelude::*;

verus! {

/// An instruction of the machine.
#[derive(Copy, Clone, Debug, PartialEq, Eq, Structural)]
pub enum Opcode {
    /// Do nothing this tick.
    NoOp,
    /// Load the next two bytes, low byte first, into `A`.
    LdA16,
    /// Load the next two bytes, low byte first, into `B`.
    LdB16,
    /// Store `A`, low byte first, at the RAM address in the next two bytes.
    StA16,
    /// Store `B`, low byte first, at the RAM address in the next two bytes.
    StB16,
    /// Load the next byte into `A`.
    LdA8,
    /// Load the next byte into `B`.
    LdB8,
    /// Store the low byte of `A` at the RAM address in the next byte.
    StA8,
    /// Store the low byte of `B` at the RAM address in the next byte.
    StB8,
    /// `A` becomes `A + B`.
    Add,
    /// `A` becomes `A - B`.
    Sub,
    /// Negate `A`.
    NegA,
    /// Negate `B`.
    NegB,
    /// Increment `A`.
    IncA,
    /// Increment `B`.
    IncB,
    /// Latch `A` into the ALU outputs.
    PassA,
    /// Latch `B` into the ALU outputs.
    PassB,
    /// `A` becomes `A & B`.
    And,
    /// `A` becomes `A | B`.
    Or,
    /// `A` becomes `A ^ B`.
    XOr,
    /// Complement `A`.
    BitFlpA,
    /// Complement `B`.
    BitFlpB,
    /// Arithmetic shift of `A` left by `B` bits.
    ShftL,
    /// Arithmetic shift of `A` right by `B` bits.
    ShftR,
    /// Logical shift of `A` left by `B` bits.
    UShftL,
    /// Logical shift of `A` right by `B` bits.
    UShftR,
    /// Rotate `A` left by `B` bits.
    RotL,
    /// Rotate `A` right by `B` bits.
    RotR,
}

/// The opcode whose encoding is `b`, if any.
pub open spec fn decode(b: u8) -> Option<Opcode> {
    match b {
        0 => Some(Opcode::NoOp),
        1 => Some(Opcode::LdA16),
        2 => Some(Opcode::LdB16),
        3 => Some(Opcode::StA16),
        4 => Some(Opcode::StB16),
        5 => Some(Opcode::LdA8),
        6 => Some(Opcode::LdB8),
        7 => Some(Opcode::StA8),
        8 => Some(Opcode::StB8),
        9 => Some(Opcode::Add),
        10 => Some(Opcode::Sub),
        11 => Some(Opcode::NegA),
        12 => Some(Opcode::NegB),
        13 => Some(Opcode::IncA),
        14 => Some(Opcode::IncB),
        15 => Some(Opcode::PassA),
        16 => Some(Opcode::PassB),
        17 => Some(Opcode::And),
        18 => Some(Opcode::Or),
        19 => Some(Opcode::XOr),
        20 => Some(Opcode::BitFlpA),
        21 => Some(Opcode::BitFlpB),
        22 => Some(Opcode::ShftL),
        23 => Some(Opcode::ShftR),
        24 => Some(Opcode::UShftL),
        25 => Some(Opcode::UShftR),
        26 => Some(Opcode::RotL),
        27 => Some(Opcode::RotR),
        _ => None,
    }
}

impl Opcode {
    /// The first byte of the instruction.
    pub open spec fn encoding(self) -> u8 {
        match self {
            Opcode::NoOp => 0,
            Opcode::LdA16 => 1,
            Opcode::LdB16 => 2,
            Opcode::StA16 => 3,
            Opcode::StB16 => 4,
            Opcode::LdA8 => 5,
            Opcode::LdB8 => 6,
            Opcode::StA8 => 7,
            Opcode::StB8 => 8,
            Opcode::Add => 9,
            Opcode::Sub => 10,
            Opcode::NegA => 11,
            Opcode::NegB => 12,
            Opcode::IncA => 13,
            Opcode::IncB => 14,
            Opcode::PassA => 15,
            Opcode::PassB => 16,
            Opcode::And => 17,
            Opcode::Or => 18,
            Opcode::XOr => 19,
            Opcode::BitFlpA => 20,
            Opcode::BitFlpB => 21,
            Opcode::ShftL => 22,
            Opcode::ShftR => 23,
            Opcode::UShftL => 24,
            Opcode::UShftR => 25,
            Opcode::RotL => 26,
            Opcode::RotR => 27,
        }
    }

    /// The length of the instruction in bytes, the opcode byte included.
    pub open spec fn length(self) -> u16 {
        match self {
            Opcode::NoOp => 1,
            Opcode::LdA16 | Opcode::LdB16 | Opcode::StA16 | Opcode::StB16 => 3,
            Opcode::LdA8 | Opcode::LdB8 | Opcode::StA8 | Opcode::StB8 => 2,
            _ => 1,
        }
    }

    /// Decodes an opcode byte.
    pub fn from_byte(b: u8) -> (r: Option<Opcode>)
        ensures
            r == decode(b),
            r matches Some(op) ==> op.encoding() == b,
            r is None <==> b > 27,
    {
        match b {
            0 => Some(Opcode::NoOp),
            1 => Some(Opcode::LdA16),
            2 => Some(Opcode::LdB16),
            3 => Some(Opcode::StA16),
            4 => Some(Opcode::StB16),
            5 => Some(Opcode::LdA8),
            6 => Some(Opcode::LdB8),
            7 => Some(Opcode::StA8),
            8 => Some(Opcode::StB8),
            9 => Some(Opcode::Add),
            10 => Some(Opcode::Sub),
            11 => Some(Opcode::NegA),
            12 => Some(Opcode::NegB),
            13 => Some(Opcode::IncA),
            14 => Some(Opcode::IncB),
            15 => Some(Opcode::PassA),
            16 => Some(Opcode::PassB),
            17 => Some(Opcode::And),
            18 => Some(Opcode::Or),
            19 => Some(Opcode::XOr),
            20 => Some(Opcode::BitFlpA),
            21 => Some(Opcode::BitFlpB),
            22 => Some(Opcode::ShftL),
            23 => Some(Opcode::ShftR),
            24 => Some(Opcode::UShftL),
            25 => Some(Opcode::UShftR),
            26 => Some(Opcode::RotL),
            27 => Some(Opcode::RotR),
            _ => None,
        }
    }

    /// The first byte of the instruction.
    pub fn byte(self) -> (r: u8)
        ensures
            r == self.encoding(),
    {
        match self {
            Opcode::NoOp => 0,
            Opcode::LdA16 => 1,
            Opcode::LdB16 => 2,
            Opcode::StA16 => 3,
            Opcode::StB16 => 4,
            Opcode::LdA8 => 5,
            Opcode::LdB8 => 6,
            Opcode::StA8 => 7,
            Opcode::StB8 => 8,
            Opcode::Add => 9,
            Opcode::Sub => 10,
            Opcode::NegA => 11,
            Opcode::NegB => 12,
            Opcode::IncA => 13,
            Opcode::IncB => 14,
            Opcode::PassA => 15,
            Opcode::PassB => 16,
            Opcode::And => 17,
            Opcode::Or => 18,
            Opcode::XOr => 19,
            Opcode::BitFlpA => 20,
            Opcode::BitFlpB => 21,
            Opcode::ShftL => 22,
            Opcode::ShftR => 23,
            Opcode::UShftL => 24,
            Opcode::UShftR => 25,
            Opcode::RotL => 26,
            Opcode::RotR => 27,
        }
    }

    /// The length of the instruction in bytes, the opcode byte included.
    pub fn len(self) -> (r: u16)
        ensures
            r == self.length(),
            1 <= r <= 3,
    {
        match self {
            Opcode::NoOp => 1,
            Opcode::LdA16 | Opcode::LdB16 | Opcode::StA16 | Opcode::StB16 => 3,
            Opcode::LdA8 | Opcode::LdB8 | Opcode::StA8 | Opcode::StB8 => 2,
            _ => 1,
        }
    }
}

/// Decoding an opcode's byte gives the opcode back.
pub proof fn lemma_decode_encoding(op: Opcode)
    ensures
        decode(op.encoding()) == Some(op),
{
}

} // verus!
