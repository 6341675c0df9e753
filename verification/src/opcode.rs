//! The eleven RV32IM major opcodes.
use vstd::prelude::*;
use crate::error::DecodeError;
use crate::model;

verus! {

#[derive(Clone, Copy, Debug, PartialEq, Eq)]
pub enum Opcode {
    Load,
    MiscMem,
    OpImm,
    Auipc,
    Store,
    Op,
    Lui,
    Branch,
    Jalr,
    Jal,
    System,
}

/// The 7-bit encoding of an opcode.
pub open spec fn opcode_bits_of(opcode: Opcode) -> u8 {
    match opcode {
        Opcode::Load => 0b0000011,
        Opcode::MiscMem => 0b0001111,
        Opcode::OpImm => 0b0010011,
        Opcode::Auipc => 0b0010111,
        Opcode::Store => 0b0100011,
        Opcode::Op => 0b0110011,
        Opcode::Lui => 0b0110111,
        Opcode::Branch => 0b1100011,
        Opcode::Jalr => 0b1100111,
        Opcode::Jal => 0b1101111,
        Opcode::System => 0b1110011,
    }
}

/// The opcode with encoding `bits`, if any.
pub open spec fn opcode_of_bits(bits: u8) -> Option<Opcode> {
    if bits == 0b0000011 {
        Some(Opcode::Load)
    } else if bits == 0b0001111 {
        Some(Opcode::MiscMem)
    } else if bits == 0b0010011 {
        Some(Opcode::OpImm)
    } else if bits == 0b0010111 {
        Some(Opcode::Auipc)
    } else if bits == 0b0100011 {
        Some(Opcode::Store)
    } else if bits == 0b0110011 {
        Some(Opcode::Op)
    } else if bits == 0b0110111 {
        Some(Opcode::Lui)
    } else if bits == 0b1100011 {
        Some(Opcode::Branch)
    } else if bits == 0b1100111 {
        Some(Opcode::Jalr)
    } else if bits == 0b1101111 {
        Some(Opcode::Jal)
    } else if bits == 0b1110011 {
        Some(Opcode::System)
    } else {
        None
    }
}

impl Opcode {
    pub fn bits(self) -> (r: u8)
        ensures
            r == opcode_bits_of(self),
    {
        match self {
            Opcode::Load => 0b0000011,
            Opcode::MiscMem => 0b0001111,
            Opcode::OpImm => 0b0010011,
            Opcode::Auipc => 0b0010111,
            Opcode::Store => 0b0100011,
            Opcode::Op => 0b0110011,
            Opcode::Lui => 0b0110111,
            Opcode::Branch => 0b1100011,
            Opcode::Jalr => 0b1100111,
            Opcode::Jal => 0b1101111,
            Opcode::System => 0b1110011,
        }
    }

    /// The opcode of `word` (its low seven bits).
    pub fn from_word(word: u32) -> (r: Result<Self, DecodeError>)
        ensures
            r == (match opcode_of_bits(model::opcode_of(word)) {
                Some(o) => Ok(o),
                None => Err(DecodeError::InvalidOpcode(model::opcode_of(word))),
            }),
    {
        proof { model::lemma_word_fields(word); }
        Self::from_bits((word & 0x7f) as u8)
    }

    pub fn from_bits(bits: u8) -> (r: Result<Self, DecodeError>)
        ensures
            r == (match opcode_of_bits(bits) {
                Some(o) => Ok(o),
                None => Err(DecodeError::InvalidOpcode(bits)),
            }),
    {
        match bits {
            0b0000011 => Ok(Self::Load),
            0b0001111 => Ok(Self::MiscMem),
            0b0010011 => Ok(Self::OpImm),
            0b0010111 => Ok(Self::Auipc),
            0b0100011 => Ok(Self::Store),
            0b0110011 => Ok(Self::Op),
            0b0110111 => Ok(Self::Lui),
            0b1100011 => Ok(Self::Branch),
            0b1100111 => Ok(Self::Jalr),
            0b1101111 => Ok(Self::Jal),
            0b1110011 => Ok(Self::System),
            _ => Err(DecodeError::InvalidOpcode(bits)),
        }
    }
}

/// Decoding an opcode's encoding gives the opcode back.
pub proof fn law_from_bits_of_bits(opcode: Opcode)
    ensures
        opcode_of_bits(opcode_bits_of(opcode)) == Some(opcode),
{
}

/// An encoding that decodes to an opcode is that opcode's encoding.
pub proof fn law_bits_of_from_bits(bits: u8)
    ensures
        opcode_of_bits(bits) matches Some(o) ==> opcode_bits_of(o) == bits,
{
}

} // verus!
