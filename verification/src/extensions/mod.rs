//! Per-extension decoders producing one flat variant per mnemonic with raw
//! 5-bit register numbers, and the dispatch between them.
use vstd::prelude::*;
use crate::error::ZkvmError;
use crate::instruction as grouped;
use crate::instruction::{BranchKind, LoadKind, OpImmKind, OpKind, StoreKind, SystemKind};
use crate::model;

pub mod i;
pub mod m;
pub mod base_i;
pub mod m_extension;

verus! {

/// A decoded RV32IM instruction, one variant per mnemonic.
#[allow(inconsistent_fields)]
#[derive(Debug, Clone, Copy, PartialEq, Eq)]
pub enum Instruction {
    Lui { rd: u8, imm: i32 },
    Auipc { rd: u8, imm: i32 },
    Jal { rd: u8, imm: i32 },
    Jalr { rd: u8, rs1: u8, imm: i32 },
    Beq { rs1: u8, rs2: u8, imm: i32 },
    Bne { rs1: u8, rs2: u8, imm: i32 },
    Blt { rs1: u8, rs2: u8, imm: i32 },
    Bge { rs1: u8, rs2: u8, imm: i32 },
    Bltu { rs1: u8, rs2: u8, imm: i32 },
    Bgeu { rs1: u8, rs2: u8, imm: i32 },
    Lb { rd: u8, rs1: u8, imm: i32 },
    Lh { rd: u8, rs1: u8, imm: i32 },
    Lw { rd: u8, rs1: u8, imm: i32 },
    Lbu { rd: u8, rs1: u8, imm: i32 },
    Lhu { rd: u8, rs1: u8, imm: i32 },
    Sb { rs1: u8, rs2: u8, imm: i32 },
    Sh { rs1: u8, rs2: u8, imm: i32 },
    Sw { rs1: u8, rs2: u8, imm: i32 },
    Addi { rd: u8, rs1: u8, imm: i32 },
    Slti { rd: u8, rs1: u8, imm: i32 },
    Sltiu { rd: u8, rs1: u8, imm: i32 },
    Xori { rd: u8, rs1: u8, imm: i32 },
    Ori { rd: u8, rs1: u8, imm: i32 },
    Andi { rd: u8, rs1: u8, imm: i32 },
    Slli { rd: u8, rs1: u8, shamt: u8 },
    Srli { rd: u8, rs1: u8, shamt: u8 },
    Srai { rd: u8, rs1: u8, shamt: u8 },
    Add { rd: u8, rs1: u8, rs2: u8 },
    Sub { rd: u8, rs1: u8, rs2: u8 },
    Sll { rd: u8, rs1: u8, rs2: u8 },
    Slt { rd: u8, rs1: u8, rs2: u8 },
    Sltu { rd: u8, rs1: u8, rs2: u8 },
    Xor { rd: u8, rs1: u8, rs2: u8 },
    Srl { rd: u8, rs1: u8, rs2: u8 },
    Sra { rd: u8, rs1: u8, rs2: u8 },
    Or { rd: u8, rs1: u8, rs2: u8 },
    And { rd: u8, rs1: u8, rs2: u8 },
    Fence { fm: u8, pred: u8, succ: u8 },
    Ecall,
    Ebreak,
    Mul { rd: u8, rs1: u8, rs2: u8 },
    Mulh { rd: u8, rs1: u8, rs2: u8 },
    Mulhsu { rd: u8, rs1: u8, rs2: u8 },
    Mulhu { rd: u8, rs1: u8, rs2: u8 },
    Div { rd: u8, rs1: u8, rs2: u8 },
    Divu { rd: u8, rs1: u8, rs2: u8 },
    Rem { rd: u8, rs1: u8, rs2: u8 },
    Remu { rd: u8, rs1: u8, rs2: u8 },
}

/// A decoder for one instruction-set extension.
pub trait ExtensionDecoder {
    /// The instruction `word` encodes, if this extension defines it.
    fn decode(&self, word: u32) -> Option<Instruction>;
}

/// The RV32I base extension.
#[derive(Debug, Clone, Copy, PartialEq, Eq)]
pub struct IExtension;

/// The RV32M multiply/divide extension.
#[derive(Debug, Clone, Copy, PartialEq, Eq)]
pub struct MExtension;

impl ExtensionDecoder for IExtension {
    fn decode(&self, word: u32) -> (r: Option<Instruction>)
        ensures
            r == (match i::i_decode_of(word) {
                Ok(instruction) => Some(instruction),
                Err(_) => None::<Instruction>,
            }),
    {
        match i::decode(word) {
            Ok(instruction) => Some(instruction),
            Err(_) => None,
        }
    }
}

impl ExtensionDecoder for MExtension {
    fn decode(&self, word: u32) -> (r: Option<Instruction>)
        ensures
            r == (match m::m_decode_of(word) {
                Ok(instruction) => Some(instruction),
                Err(_) => None::<Instruction>,
            }),
    {
        match m::decode(word) {
            Ok(instruction) => Some(instruction),
            Err(_) => None,
        }
    }
}

/// What the combined RV32IM decoder makes of `word`: words with opcode OP and
/// funct7 0b0000001 go to the M decoder, all others to the base decoder.
pub open spec fn rv32im_decode_of(word: u32) -> Result<Instruction, ZkvmError> {
    if model::opcode_of(word) == 0x33 && model::funct7_of(word) == 1 {
        m::m_decode_of(word)
    } else {
        i::i_decode_of(word)
    }
}

/// The flat decoder and the grouped decoder (`crate::decode`) accept exactly
/// the same words.
pub proof fn law_flat_and_grouped_decoders_agree_on_acceptance(word: u32)
    ensures
        rv32im_decode_of(word) is Ok <==> crate::decoder::decode_of(word) is Ok,
{
}

/// The flat form of an instruction of the grouped decoder: the kind tag
/// becomes the variant, and a shift's immediate becomes its shift amount.
/// FENCE.I has no flat form.
pub open spec fn flat_of(i: grouped::Instruction) -> Option<Instruction> {
    match i {
        grouped::Instruction::Lui { rd, imm } => Some(Instruction::Lui { rd, imm }),
        grouped::Instruction::Auipc { rd, imm } => Some(Instruction::Auipc { rd, imm }),
        grouped::Instruction::Jal { rd, imm } => Some(Instruction::Jal { rd, imm }),
        grouped::Instruction::Jalr { rd, rs1, imm } => Some(Instruction::Jalr { rd, rs1, imm }),
        grouped::Instruction::Branch { kind, rs1, rs2, imm } => Some(
            match kind {
                BranchKind::Beq => Instruction::Beq { rs1, rs2, imm },
                BranchKind::Bne => Instruction::Bne { rs1, rs2, imm },
                BranchKind::Blt => Instruction::Blt { rs1, rs2, imm },
                BranchKind::Bge => Instruction::Bge { rs1, rs2, imm },
                BranchKind::Bltu => Instruction::Bltu { rs1, rs2, imm },
                BranchKind::Bgeu => Instruction::Bgeu { rs1, rs2, imm },
            },
        ),
        grouped::Instruction::Load { kind, rd, rs1, imm } => Some(
            match kind {
                LoadKind::Lb => Instruction::Lb { rd, rs1, imm },
                LoadKind::Lh => Instruction::Lh { rd, rs1, imm },
                LoadKind::Lw => Instruction::Lw { rd, rs1, imm },
                LoadKind::Lbu => Instruction::Lbu { rd, rs1, imm },
                LoadKind::Lhu => Instruction::Lhu { rd, rs1, imm },
            },
        ),
        grouped::Instruction::Store { kind, rs1, rs2, imm } => Some(
            match kind {
                StoreKind::Sb => Instruction::Sb { rs1, rs2, imm },
                StoreKind::Sh => Instruction::Sh { rs1, rs2, imm },
                StoreKind::Sw => Instruction::Sw { rs1, rs2, imm },
            },
        ),
        grouped::Instruction::OpImm { kind, rd, rs1, imm } => Some(
            match kind {
                OpImmKind::Addi => Instruction::Addi { rd, rs1, imm },
                OpImmKind::Slti => Instruction::Slti { rd, rs1, imm },
                OpImmKind::Sltiu => Instruction::Sltiu { rd, rs1, imm },
                OpImmKind::Xori => Instruction::Xori { rd, rs1, imm },
                OpImmKind::Ori => Instruction::Ori { rd, rs1, imm },
                OpImmKind::Andi => Instruction::Andi { rd, rs1, imm },
                OpImmKind::Slli => Instruction::Slli { rd, rs1, shamt: imm as u8 },
                OpImmKind::Srli => Instruction::Srli { rd, rs1, shamt: imm as u8 },
                OpImmKind::Srai => Instruction::Srai { rd, rs1, shamt: imm as u8 },
            },
        ),
        grouped::Instruction::Op { kind, rd, rs1, rs2 } => Some(
            match kind {
                OpKind::Add => Instruction::Add { rd, rs1, rs2 },
                OpKind::Sub => Instruction::Sub { rd, rs1, rs2 },
                OpKind::Sll => Instruction::Sll { rd, rs1, rs2 },
                OpKind::Slt => Instruction::Slt { rd, rs1, rs2 },
                OpKind::Sltu => Instruction::Sltu { rd, rs1, rs2 },
                OpKind::Xor => Instruction::Xor { rd, rs1, rs2 },
                OpKind::Srl => Instruction::Srl { rd, rs1, rs2 },
                OpKind::Sra => Instruction::Sra { rd, rs1, rs2 },
                OpKind::Or => Instruction::Or { rd, rs1, rs2 },
                OpKind::And => Instruction::And { rd, rs1, rs2 },
                OpKind::Mul => Instruction::Mul { rd, rs1, rs2 },
                OpKind::Mulh => Instruction::Mulh { rd, rs1, rs2 },
                OpKind::Mulhsu => Instruction::Mulhsu { rd, rs1, rs2 },
                OpKind::Mulhu => Instruction::Mulhu { rd, rs1, rs2 },
                OpKind::Div => Instruction::Div { rd, rs1, rs2 },
                OpKind::Divu => Instruction::Divu { rd, rs1, rs2 },
                OpKind::Rem => Instruction::Rem { rd, rs1, rs2 },
                OpKind::Remu => Instruction::Remu { rd, rs1, rs2 },
            },
        ),
        grouped::Instruction::Fence { pred, succ, fm } => Some(Instruction::Fence { fm, pred, succ }),
        grouped::Instruction::FenceI => None,
        grouped::Instruction::System { kind } => Some(
            match kind {
                SystemKind::Ecall => Instruction::Ecall,
                SystemKind::Ebreak => Instruction::Ebreak,
            },
        ),
    }
}

/// The flat decoder (`Zkvm::decode`) decodes every word to the same
/// instruction as the grouped decoder (`crate::decode`), variant by variant:
/// the same operation on the same registers and immediate.
#[verifier::rlimit(40)]
pub proof fn law_flat_and_grouped_decoders_agree(word: u32)
    ensures
        crate::decoder::decode_of(word) matches Ok(i) ==> flat_of(i) == Some(
            rv32im_decode_of(word)->Ok_0,
        ),
        crate::decoder::decode_of(word) is Ok <==> rv32im_decode_of(word) is Ok,
{
}

} // verus!
