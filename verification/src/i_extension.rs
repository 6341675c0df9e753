//! Decoders for the RV32I instruction groups, one per major opcode. Each
//! reads the fields of the word; the caller has already dispatched on the
//! opcode.
use vstd::prelude::*;
use crate::encoding::{
    funct3, funct7, imm_b, imm_i, imm_s, rd, rs1, rs2, shamt,
    FUNCT7_ALT, FUNCT7_BASE, OPCODE_BRANCH, OPCODE_LOAD, OPCODE_MISC_MEM, OPCODE_OP, OPCODE_OP_IMM,
    OPCODE_STORE,
};
use crate::error::DecoderError;
use crate::instruction::{
    branch_kind_of, base_op_kind_of, load_kind_of, op_imm_kind_of, store_kind_of, BranchKind,
    LoadKind, OpImmKind, OpKind, StoreKind, SystemKind,
};
use crate::model;

verus! {

/// An instruction decoded by one of the group decoders; register numbers are
/// the raw 5-bit fields. FENCE and FENCE.I carry no fields.
#[allow(inconsistent_fields)]
#[derive(Debug, Clone, Copy, PartialEq, Eq)]
pub enum Instruction {
    Branch { kind: BranchKind, rs1: u8, rs2: u8, imm: i32 },
    Load { kind: LoadKind, rd: u8, rs1: u8, imm: i32 },
    Store { kind: StoreKind, rs1: u8, rs2: u8, imm: i32 },
    OpImm { kind: OpImmKind, rd: u8, rs1: u8, imm: i32 },
    Op { kind: OpKind, rd: u8, rs1: u8, rs2: u8 },
    Fence,
    FenceI,
    System { kind: SystemKind },
}

/// A conditional branch, its condition selected by funct3.
pub fn decode_branch(word: u32) -> (r: Result<Instruction, DecoderError>)
    ensures
        r == (match branch_kind_of(model::funct3_of(word)) {
            Some(kind) => Ok(Instruction::Branch {
                kind,
                rs1: model::rs1_of(word),
                rs2: model::rs2_of(word),
                imm: model::imm_b_of(word),
            }),
            None => Err(DecoderError::InvalidFunct3 { opcode: OPCODE_BRANCH, funct3: model::funct3_of(word) }),
        }),
{
    let kind = match funct3(word) {
        0b000 => BranchKind::Beq,
        0b001 => BranchKind::Bne,
        0b100 => BranchKind::Blt,
        0b101 => BranchKind::Bge,
        0b110 => BranchKind::Bltu,
        0b111 => BranchKind::Bgeu,
        other => {
            return Err(DecoderError::InvalidFunct3 { opcode: OPCODE_BRANCH, funct3: other });
        },
    };
    Ok(Instruction::Branch { kind, rs1: rs1(word), rs2: rs2(word), imm: imm_b(word) })
}

/// A load, its width and signedness selected by funct3.
pub fn decode_load(word: u32) -> (r: Result<Instruction, DecoderError>)
    ensures
        r == (match load_kind_of(model::funct3_of(word)) {
            Some(kind) => Ok(Instruction::Load {
                kind,
                rd: model::rd_of(word),
                rs1: model::rs1_of(word),
                imm: model::imm_i_of(word),
            }),
            None => Err(DecoderError::InvalidFunct3 { opcode: OPCODE_LOAD, funct3: model::funct3_of(word) }),
        }),
{
    let kind = match funct3(word) {
        0b000 => LoadKind::Lb,
        0b001 => LoadKind::Lh,
        0b010 => LoadKind::Lw,
        0b100 => LoadKind::Lbu,
        0b101 => LoadKind::Lhu,
        other => {
            return Err(DecoderError::InvalidFunct3 { opcode: OPCODE_LOAD, funct3: other });
        },
    };
    Ok(Instruction::Load { kind, rd: rd(word), rs1: rs1(word), imm: imm_i(word) })
}

/// A store, its width selected by funct3.
pub fn decode_store(word: u32) -> (r: Result<Instruction, DecoderError>)
    ensures
        r == (match store_kind_of(model::funct3_of(word)) {
            Some(kind) => Ok(Instruction::Store {
                kind,
                rs1: model::rs1_of(word),
                rs2: model::rs2_of(word),
                imm: model::imm_s_of(word),
            }),
            None => Err(DecoderError::InvalidFunct3 { opcode: OPCODE_STORE, funct3: model::funct3_of(word) }),
        }),
{
    let kind = match funct3(word) {
        0b000 => StoreKind::Sb,
        0b001 => StoreKind::Sh,
        0b010 => StoreKind::Sw,
        other => {
            return Err(DecoderError::InvalidFunct3 { opcode: OPCODE_STORE, funct3: other });
        },
    };
    Ok(Instruction::Store { kind, rs1: rs1(word), rs2: rs2(word), imm: imm_s(word) })
}

/// Whether a register-immediate operation is a shift by an immediate amount.
pub open spec fn is_shift_imm(kind: OpImmKind) -> bool {
    kind == OpImmKind::Slli || kind == OpImmKind::Srli || kind == OpImmKind::Srai
}

/// A register-immediate operation. Shifts carry the 5-bit shift amount as
/// their immediate, all others the sign-extended I-immediate.
pub fn decode_op_imm(word: u32) -> (r: Result<Instruction, DecoderError>)
    ensures
        r == (match op_imm_kind_of(model::funct3_of(word), model::funct7_of(word)) {
            Some(kind) => Ok(Instruction::OpImm {
                kind,
                rd: model::rd_of(word),
                rs1: model::rs1_of(word),
                imm: if is_shift_imm(kind) { model::rs2_of(word) as i32 } else { model::imm_i_of(word) },
            }),
            None => Err(DecoderError::InvalidFunct7 {
                opcode: OPCODE_OP_IMM,
                funct3: model::funct3_of(word),
                funct7: model::funct7_of(word),
            }),
        }),
{
    let kind = match funct3(word) {
        0b000 => OpImmKind::Addi,
        0b010 => OpImmKind::Slti,
        0b011 => OpImmKind::Sltiu,
        0b100 => OpImmKind::Xori,
        0b110 => OpImmKind::Ori,
        0b111 => OpImmKind::Andi,
        0b001 => {
            if funct7(word) != FUNCT7_BASE {
                return Err(DecoderError::InvalidFunct7 {
                    opcode: OPCODE_OP_IMM,
                    funct3: funct3(word),
                    funct7: funct7(word),
                });
            }
            OpImmKind::Slli
        },
        0b101 => match funct7(word) {
            FUNCT7_BASE => OpImmKind::Srli,
            FUNCT7_ALT => OpImmKind::Srai,
            other => {
                return Err(DecoderError::InvalidFunct7 {
                    opcode: OPCODE_OP_IMM,
                    funct3: funct3(word),
                    funct7: other,
                });
            },
        },
        other => {
            return Err(DecoderError::InvalidFunct3 { opcode: OPCODE_OP_IMM, funct3: other });
        },
    };
    let imm = match kind {
        OpImmKind::Slli | OpImmKind::Srli | OpImmKind::Srai => shamt(word) as i32,
        _ => imm_i(word),
    };
    Ok(Instruction::OpImm { kind, rd: rd(word), rs1: rs1(word), imm })
}

/// A base register-register operation, selected by funct3 and funct7.
pub fn decode_op(word: u32) -> (r: Result<Instruction, DecoderError>)
    ensures
        r == (match base_op_kind_of(model::funct3_of(word), model::funct7_of(word)) {
            Some(kind) => Ok(Instruction::Op {
                kind,
                rd: model::rd_of(word),
                rs1: model::rs1_of(word),
                rs2: model::rs2_of(word),
            }),
            None => Err(DecoderError::InvalidFunct7 {
                opcode: OPCODE_OP,
                funct3: model::funct3_of(word),
                funct7: model::funct7_of(word),
            }),
        }),
{
    let kind = match (funct3(word), funct7(word)) {
        (0b000, FUNCT7_BASE) => OpKind::Add,
        (0b000, FUNCT7_ALT) => OpKind::Sub,
        (0b001, FUNCT7_BASE) => OpKind::Sll,
        (0b010, FUNCT7_BASE) => OpKind::Slt,
        (0b011, FUNCT7_BASE) => OpKind::Sltu,
        (0b100, FUNCT7_BASE) => OpKind::Xor,
        (0b101, FUNCT7_BASE) => OpKind::Srl,
        (0b101, FUNCT7_ALT) => OpKind::Sra,
        (0b110, FUNCT7_BASE) => OpKind::Or,
        (0b111, FUNCT7_BASE) => OpKind::And,
        (funct3_value, funct7_value) => {
            return Err(DecoderError::InvalidFunct7 {
                opcode: OPCODE_OP,
                funct3: funct3_value,
                funct7: funct7_value,
            });
        },
    };
    Ok(Instruction::Op { kind, rd: rd(word), rs1: rs1(word), rs2: rs2(word) })
}

/// What `decode_misc_mem` makes of a word whose funct3 field is `funct3`.
pub open spec fn misc_mem_of(funct3: u8) -> Result<Instruction, DecoderError> {
    if funct3 == 0 {
        Ok(Instruction::Fence)
    } else if funct3 == 1 {
        Ok(Instruction::FenceI)
    } else {
        Err(DecoderError::InvalidFunct3 { opcode: OPCODE_MISC_MEM, funct3 })
    }
}

/// FENCE (funct3 0) or FENCE.I (funct3 1); only funct3 is read.
pub fn decode_misc_mem(word: u32) -> (r: Result<Instruction, DecoderError>)
    ensures
        r == misc_mem_of(model::funct3_of(word)),
{
    match funct3(word) {
        0b000 => Ok(Instruction::Fence),
        0b001 => Ok(Instruction::FenceI),
        other => Err(DecoderError::InvalidFunct3 { opcode: OPCODE_MISC_MEM, funct3: other }),
    }
}

/// Only bits 14..12 (funct3) of a MISC-MEM word decide what
/// `decode_misc_mem` returns: two words that agree there decode alike.
pub proof fn law_misc_mem_reads_only_funct3(w1: u32, w2: u32)
    requires
        (w1 / 0x1000) % 8 == (w2 / 0x1000) % 8,
    ensures
        misc_mem_of(model::funct3_of(w1)) == misc_mem_of(model::funct3_of(w2)),
{
}

/// ECALL and EBREAK are the only SYSTEM words accepted; every other word is
/// reserved.
pub fn decode_system(word: u32) -> (r: Result<Instruction, DecoderError>)
    ensures
        r == (if word == 0x0000_0073 {
            Ok(Instruction::System { kind: SystemKind::Ecall })
        } else if word == 0x0010_0073 {
            Ok(Instruction::System { kind: SystemKind::Ebreak })
        } else {
            Err(DecoderError::ReservedInstruction(word))
        }),
{
    match word {
        0x0000_0073 => Ok(Instruction::System { kind: SystemKind::Ecall }),
        0x0010_0073 => Ok(Instruction::System { kind: SystemKind::Ebreak }),
        _ => Err(DecoderError::ReservedInstruction(word)),
    }
}

} // verus!
