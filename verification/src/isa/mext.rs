//! RV32M decoding from the funct3 field and register numbers.
use vstd::prelude::*;
use crate::error::ZkvmError;
use crate::extensions::Instruction;
use crate::extensions::m::m_instruction_of;

verus! {

/// The M-extension instruction selected by `funct3`; a `funct3` above 7 is
/// not a variant.
pub fn decode(funct3: u8, rd: u8, rs1: u8, rs2: u8) -> (r: Result<Instruction, ZkvmError>)
    ensures
        funct3 < 8 ==> r == Ok::<Instruction, ZkvmError>(m_instruction_of(funct3, rd, rs1, rs2)),
        funct3 >= 8 ==> r == Err::<Instruction, ZkvmError>(ZkvmError::UnimplementedVariant(funct3 as u32)),
{
    match funct3 {
        0 => Ok(Instruction::Mul { rd, rs1, rs2 }),
        1 => Ok(Instruction::Mulh { rd, rs1, rs2 }),
        2 => Ok(Instruction::Mulhsu { rd, rs1, rs2 }),
        3 => Ok(Instruction::Mulhu { rd, rs1, rs2 }),
        4 => Ok(Instruction::Div { rd, rs1, rs2 }),
        5 => Ok(Instruction::Divu { rd, rs1, rs2 }),
        6 => Ok(Instruction::Rem { rd, rs1, rs2 }),
        7 => Ok(Instruction::Remu { rd, rs1, rs2 }),
        _ => Err(ZkvmError::UnimplementedVariant(funct3 as u32)),
    }
}

} // verus!
