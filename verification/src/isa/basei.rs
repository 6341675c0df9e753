//! A coarse classification of base-ISA words: every word is recorded as an
//! ADDI of unknown format, tagged with its major opcode.
use vstd::prelude::*;
use crate::error::DecodeError;
use crate::opcode::Opcode;

verus! {

/// The layout of an instruction's fields, when known.
#[derive(Clone, Copy, Debug, PartialEq, Eq)]
pub enum InstructionFormat {
    R,
    I,
    S,
    B,
    U,
    J,
    Unknown,
}

/// The instruction-set extension an instruction belongs to.
#[derive(Clone, Copy, Debug, PartialEq, Eq)]
pub enum Extension {
    BaseI,
    M,
}

/// A classified word.
#[derive(Clone, Copy, Debug, PartialEq, Eq)]
pub struct DecodedInstruction {
    pub word: u32,
    pub opcode: Opcode,
    pub format: InstructionFormat,
    pub extension: Extension,
    pub mnemonic: &'static str,
}

impl DecodedInstruction {
    pub fn new(
        word: u32,
        opcode: Opcode,
        format: InstructionFormat,
        extension: Extension,
        mnemonic: &'static str,
    ) -> (r: Self)
        ensures
            r == (DecodedInstruction { word, opcode, format, extension, mnemonic }),
    {
        DecodedInstruction { word, opcode, format, extension, mnemonic }
    }
}

/// Records `word` under `opcode` as a base-ISA ADDI of unknown format.
pub fn decode_basei(word: u32, opcode: Opcode) -> (r: Result<DecodedInstruction, DecodeError>)
    ensures
        r == Ok::<DecodedInstruction, DecodeError>(DecodedInstruction {
            word,
            opcode,
            format: InstructionFormat::Unknown,
            extension: Extension::BaseI,
            mnemonic: "addi",
        }),
{
    Ok(DecodedInstruction::new(word, opcode, InstructionFormat::Unknown, Extension::BaseI, "addi"))
}

} // verus!
