//! Instructions decoded to one variant per mnemonic, with typed registers.
use vstd::prelude::*;
use crate::instruction::OpKind;
use crate::error::ZkvmError;
use crate::extensions;
use crate::register::Register;

verus! {

/// A decoded RV32IM instruction, one variant per mnemonic.
#[allow(inconsistent_fields)]
#[derive(Debug, Clone, Copy, PartialEq, Eq)]
pub enum Instruction {
    Lui { rd: Register, imm: i32 },
    Auipc { rd: Register, imm: i32 },
    Jal { rd: Register, imm: i32 },
    Jalr { rd: Register, rs1: Register, imm: i32 },
    Beq { rs1: Register, rs2: Register, imm: i32 },
    Bne { rs1: Register, rs2: Register, imm: i32 },
    Blt { rs1: Register, rs2: Register, imm: i32 },
    Bge { rs1: Register, rs2: Register, imm: i32 },
    Bltu { rs1: Register, rs2: Register, imm: i32 },
    Bgeu { rs1: Register, rs2: Register, imm: i32 },
    Lb { rd: Register, rs1: Register, imm: i32 },
    Lh { rd: Register, rs1: Register, imm: i32 },
    Lw { rd: Register, rs1: Register, imm: i32 },
    Lbu { rd: Register, rs1: Register, imm: i32 },
    Lhu { rd: Register, rs1: Register, imm: i32 },
    Sb { rs1: Register, rs2: Register, imm: i32 },
    Sh { rs1: Register, rs2: Register, imm: i32 },
    Sw { rs1: Register, rs2: Register, imm: i32 },
    Addi { rd: Register, rs1: Register, imm: i32 },
    Slti { rd: Register, rs1: Register, imm: i32 },
    Sltiu { rd: Register, rs1: Register, imm: i32 },
    Xori { rd: Register, rs1: Register, imm: i32 },
    Ori { rd: Register, rs1: Register, imm: i32 },
    Andi { rd: Register, rs1: Register, imm: i32 },
    Slli { rd: Register, rs1: Register, shamt: u8 },
    Srli { rd: Register, rs1: Register, shamt: u8 },
    Srai { rd: Register, rs1: Register, shamt: u8 },
    Add { rd: Register, rs1: Register, rs2: Register },
    Sub { rd: Register, rs1: Register, rs2: Register },
    Sll { rd: Register, rs1: Register, rs2: Register },
    Slt { rd: Register, rs1: Register, rs2: Register },
    Sltu { rd: Register, rs1: Register, rs2: Register },
    Xor { rd: Register, rs1: Register, rs2: Register },
    Srl { rd: Register, rs1: Register, rs2: Register },
    Sra { rd: Register, rs1: Register, rs2: Register },
    Or { rd: Register, rs1: Register, rs2: Register },
    And { rd: Register, rs1: Register, rs2: Register },
    Fence { fm: u8, pred: u8, succ: u8 },
    Ecall,
    Ebreak,
    Mul { rd: Register, rs1: Register, rs2: Register },
    Mulh { rd: Register, rs1: Register, rs2: Register },
    Mulhsu { rd: Register, rs1: Register, rs2: Register },
    Mulhu { rd: Register, rs1: Register, rs2: Register },
    Div { rd: Register, rs1: Register, rs2: Register },
    Divu { rd: Register, rs1: Register, rs2: Register },
    Rem { rd: Register, rs1: Register, rs2: Register },
    Remu { rd: Register, rs1: Register, rs2: Register },
    /// A register-register operation with its kind as a tag.
    Op { kind: OpKind, rd: Register, rs1: Register, rs2: Register },
}

impl Instruction {
    /// For an M-extension variant, its funct3 and register numbers
    /// `(funct3, rd, rs1, rs2)`; `None` for every other variant.
    pub open spec fn m_form(self) -> Option<(u8, u8, u8, u8)> {
        match self {
            Instruction::Mul { rd, rs1, rs2 } => Some((0u8, rd.id(), rs1.id(), rs2.id())),
            Instruction::Mulh { rd, rs1, rs2 } => Some((1u8, rd.id(), rs1.id(), rs2.id())),
            Instruction::Mulhsu { rd, rs1, rs2 } => Some((2u8, rd.id(), rs1.id(), rs2.id())),
            Instruction::Mulhu { rd, rs1, rs2 } => Some((3u8, rd.id(), rs1.id(), rs2.id())),
            Instruction::Div { rd, rs1, rs2 } => Some((4u8, rd.id(), rs1.id(), rs2.id())),
            Instruction::Divu { rd, rs1, rs2 } => Some((5u8, rd.id(), rs1.id(), rs2.id())),
            Instruction::Rem { rd, rs1, rs2 } => Some((6u8, rd.id(), rs1.id(), rs2.id())),
            Instruction::Remu { rd, rs1, rs2 } => Some((7u8, rd.id(), rs1.id(), rs2.id())),
            _ => None,
        }
    }
}

/// The state of the zkVM that runs RV32IM programs.
#[derive(Debug)]
pub struct Zkvm {
    pub regs: [u32; 32],
    pub pc: u32,
    pub memory: Vec<u8>,
    pub halted: bool,
}

impl Zkvm {
    /// Decodes one instruction word: M-extension words (opcode OP, funct7
    /// 0b0000001) by the M decoder, all others by the base decoder.
    pub fn decode(word: u32) -> (r: Result<extensions::Instruction, ZkvmError>)
        ensures
            r == extensions::rv32im_decode_of(word),
    {
        if crate::encoding::opcode(word) == 0x33 && crate::encoding::funct7(word) == 0x01 {
            extensions::m::decode(word)
        } else {
            extensions::i::decode(word)
        }
    }
}

} // verus!
