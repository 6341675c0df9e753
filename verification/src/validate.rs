//! Structural checks on decoded instructions.
use vstd::prelude::*;
use crate::decoder::decode_of;
use crate::error::DecodeError;
use crate::instruction::{Instruction, OpImmKind};
use crate::model;

verus! {

/// Whether a register-immediate operation is a shift.
pub open spec fn is_shift(kind: OpImmKind) -> bool {
    kind == OpImmKind::Slli || kind == OpImmKind::Srli || kind == OpImmKind::Srai
}

/// The outcome of checking `instruction`: U-immediates must have their low 12
/// bits clear, JAL and branch offsets must be even, and shift amounts must lie
/// in 0..=31.
pub open spec fn validation_of(instruction: Instruction) -> Result<(), DecodeError> {
    match instruction {
        Instruction::Lui { imm, .. } | Instruction::Auipc { imm, .. } => if imm % 0x1000 != 0 {
            Err(DecodeError::Validation("U-immediate must have low 12 bits cleared"))
        } else {
            Ok(())
        },
        Instruction::Jal { imm, .. } | Instruction::Branch { imm, .. } => if imm % 2 != 0 {
            Err(DecodeError::Validation("control-flow immediate must be 2-byte aligned"))
        } else {
            Ok(())
        },
        Instruction::OpImm { kind, imm, .. } => if is_shift(kind) && !(0 <= imm <= 31) {
            Err(DecodeError::Validation("shift amount must be in 0..=31"))
        } else {
            Ok(())
        },
        _ => Ok(()),
    }
}

proof fn lemma_low_bits(imm: i32)
    by (bit_vector)
    ensures
        (imm & 0x0fff) == 0 <==> imm % 0x1000 == 0,
        (imm & 0x1) == 0 <==> imm % 2 == 0,
{
}

/// Checks the structural constraints of `validation_of`.
pub fn validate(instruction: &Instruction) -> (r: Result<(), DecodeError>)
    ensures
        r == validation_of(*instruction),
{
    match instruction {
        Instruction::Lui { imm, .. } | Instruction::Auipc { imm, .. } => {
            proof { lemma_low_bits(*imm); }
            if (*imm & 0x0fff) != 0 {
                return Err(DecodeError::Validation("U-immediate must have low 12 bits cleared"));
            }
        },
        Instruction::Jal { imm, .. } | Instruction::Branch { imm, .. } => {
            proof { lemma_low_bits(*imm); }
            if (*imm & 0x1) != 0 {
                return Err(DecodeError::Validation("control-flow immediate must be 2-byte aligned"));
            }
        },
        Instruction::OpImm { kind, imm, .. } => {
            let shift = match *kind {
                OpImmKind::Slli | OpImmKind::Srli | OpImmKind::Srai => true,
                _ => false,
            };
            if shift && !(0 <= *imm && *imm <= 31) {
                return Err(DecodeError::Validation("shift amount must be in 0..=31"));
            }
        },
        _ => {},
    }
    Ok(())
}

/// Every instruction the RV32IM decoder produces passes validation.
pub proof fn law_decoded_instructions_validate(word: u32)
    requires
        decode_of(word) is Ok,
    ensures
        validation_of(decode_of(word)->Ok_0) == Ok::<(), DecodeError>(()),
{
    model::lemma_immediate_alignment(word);
}

} // verus!
