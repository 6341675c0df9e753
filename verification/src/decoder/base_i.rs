//! RV32I decoding to instructions that carry their format fields.
use vstd::prelude::*;
use crate::error::{ZkvmError, ZkvmResult};
use crate::formats::{BType, IType, JType, RType, SType, UType};
use crate::formatted::Instruction;
use crate::instruction::{
    base_op_kind_of, branch_kind_of, load_kind_of, op_imm_kind_of, store_kind_of, BranchKind,
    LoadKind, OpImmKind, OpKind, StoreKind, SystemKind,
};
use crate::model;
use crate::word::Word;

verus! {

/// What `decode_base_i` makes of `word`.
pub open spec fn base_i_of(word: u32) -> Result<Instruction, ZkvmError> {
    let opcode = model::opcode_of(word);
    let funct3 = model::funct3_of(word);
    let funct7 = model::funct7_of(word);
    let r = RType { rd: model::rd_of(word), rs1: model::rs1_of(word), rs2: model::rs2_of(word) };
    let i = IType { rd: model::rd_of(word), rs1: model::rs1_of(word), imm: model::imm_i_of(word) };
    let s = SType { rs1: model::rs1_of(word), rs2: model::rs2_of(word), imm: model::imm_s_of(word) };
    let b = BType { rs1: model::rs1_of(word), rs2: model::rs2_of(word), imm: model::imm_b_of(word) };
    let u = UType { rd: model::rd_of(word), imm: model::imm_u_of(word) };
    let j = JType { rd: model::rd_of(word), imm: model::imm_j_of(word) };
    let bad_funct3 = Err(ZkvmError::UnsupportedFunct3 { opcode, funct3, word });
    let bad_funct7 = Err(ZkvmError::UnsupportedFunct7 { opcode, funct3, funct7, word });
    if opcode == 0b0110111 {
        Ok(Instruction::Lui(u))
    } else if opcode == 0b0010111 {
        Ok(Instruction::Auipc(u))
    } else if opcode == 0b1101111 {
        Ok(Instruction::Jal(j))
    } else if opcode == 0b1100111 {
        if funct3 == 0 { Ok(Instruction::Jalr(i)) } else { bad_funct3 }
    } else if opcode == 0b1100011 {
        match branch_kind_of(funct3) {
            Some(kind) => Ok(Instruction::Branch(kind, b)),
            None => bad_funct3,
        }
    } else if opcode == 0b0000011 {
        match load_kind_of(funct3) {
            Some(kind) => Ok(Instruction::Load(kind, i)),
            None => bad_funct3,
        }
    } else if opcode == 0b0100011 {
        match store_kind_of(funct3) {
            Some(kind) => Ok(Instruction::Store(kind, s)),
            None => bad_funct3,
        }
    } else if opcode == 0b0010011 {
        match op_imm_kind_of(funct3, funct7) {
            Some(kind) => Ok(Instruction::OpImm(kind, i)),
            None => bad_funct7,
        }
    } else if opcode == 0b0110011 {
        match base_op_kind_of(funct3, funct7) {
            Some(kind) => Ok(Instruction::Op(kind, r)),
            None => bad_funct7,
        }
    } else if opcode == 0b0001111 {
        if funct3 == 0 { Ok(Instruction::Fence) } else { bad_funct3 }
    } else if opcode == 0b1110011 {
        if word == 0x0000_0073 {
            Ok(Instruction::System(SystemKind::Ecall))
        } else if word == 0x0010_0073 {
            Ok(Instruction::System(SystemKind::Ebreak))
        } else {
            Err(ZkvmError::InvalidEncoding {
                word,
                reason: "only ecall and ebreak are supported in the decoder",
            })
        }
    } else {
        Err(ZkvmError::UnsupportedOpcode { opcode, word })
    }
}

/// Decodes an RV32I word to an operation tag and its format fields.
pub fn decode_base_i(raw: Word) -> (r: ZkvmResult<Instruction>)
    ensures
        r == base_i_of(raw.val()),
{
    match raw.opcode() {
        0b0110111 => Ok(Instruction::Lui(UType::decode(raw.raw()))),
        0b0010111 => Ok(Instruction::Auipc(UType::decode(raw.raw()))),
        0b1101111 => Ok(Instruction::Jal(JType::decode(raw.raw()))),
        0b1100111 => decode_jalr(raw),
        0b1100011 => decode_branch(raw),
        0b0000011 => decode_load(raw),
        0b0100011 => decode_store(raw),
        0b0010011 => decode_op_imm(raw),
        0b0110011 => decode_r_type(raw),
        0b0001111 => decode_misc_mem(raw),
        0b1110011 => decode_system(raw),
        _ => Err(ZkvmError::UnsupportedOpcode { opcode: raw.opcode(), word: raw.raw() }),
    }
}

/// The OP arm: a base register-register operation.
pub fn decode_r_type(raw: Word) -> (r: ZkvmResult<Instruction>)
    requires
        model::opcode_of(raw.val()) == 0b0110011,
    ensures
        r == base_i_of(raw.val()),
{
    let fields = RType::decode(raw.raw());
    let op = match (raw.funct3(), raw.funct7()) {
        (0b000, 0b0000000) => OpKind::Add,
        (0b000, 0b0100000) => OpKind::Sub,
        (0b001, 0b0000000) => OpKind::Sll,
        (0b010, 0b0000000) => OpKind::Slt,
        (0b011, 0b0000000) => OpKind::Sltu,
        (0b100, 0b0000000) => OpKind::Xor,
        (0b101, 0b0000000) => OpKind::Srl,
        (0b101, 0b0100000) => OpKind::Sra,
        (0b110, 0b0000000) => OpKind::Or,
        (0b111, 0b0000000) => OpKind::And,
        _ => {
            return Err(ZkvmError::UnsupportedFunct7 {
                funct7: raw.funct7(),
                funct3: raw.funct3(),
                opcode: raw.opcode(),
                word: raw.raw(),
            });
        },
    };
    Ok(Instruction::Op(op, fields))
}

fn decode_jalr(raw: Word) -> (r: ZkvmResult<Instruction>)
    requires
        model::opcode_of(raw.val()) == 0b1100111,
    ensures
        r == base_i_of(raw.val()),
{
    if raw.funct3() != 0b000 {
        return Err(ZkvmError::UnsupportedFunct3 {
            funct3: raw.funct3(),
            opcode: raw.opcode(),
            word: raw.raw(),
        });
    }
    Ok(Instruction::Jalr(IType::decode(raw.raw())))
}

fn decode_branch(raw: Word) -> (r: ZkvmResult<Instruction>)
    requires
        model::opcode_of(raw.val()) == 0b1100011,
    ensures
        r == base_i_of(raw.val()),
{
    let op = match raw.funct3() {
        0b000 => BranchKind::Beq,
        0b001 => BranchKind::Bne,
        0b100 => BranchKind::Blt,
        0b101 => BranchKind::Bge,
        0b110 => BranchKind::Bltu,
        0b111 => BranchKind::Bgeu,
        _ => {
            return Err(ZkvmError::UnsupportedFunct3 {
                funct3: raw.funct3(),
                opcode: raw.opcode(),
                word: raw.raw(),
            });
        },
    };
    Ok(Instruction::Branch(op, BType::decode(raw.raw())))
}

fn decode_load(raw: Word) -> (r: ZkvmResult<Instruction>)
    requires
        model::opcode_of(raw.val()) == 0b0000011,
    ensures
        r == base_i_of(raw.val()),
{
    let op = match raw.funct3() {
        0b000 => LoadKind::Lb,
        0b001 => LoadKind::Lh,
        0b010 => LoadKind::Lw,
        0b100 => LoadKind::Lbu,
        0b101 => LoadKind::Lhu,
        _ => {
            return Err(ZkvmError::UnsupportedFunct3 {
                funct3: raw.funct3(),
                opcode: raw.opcode(),
                word: raw.raw(),
            });
        },
    };
    Ok(Instruction::Load(op, IType::decode(raw.raw())))
}

fn decode_store(raw: Word) -> (r: ZkvmResult<Instruction>)
    requires
        model::opcode_of(raw.val()) == 0b0100011,
    ensures
        r == base_i_of(raw.val()),
{
    let op = match raw.funct3() {
        0b000 => StoreKind::Sb,
        0b001 => StoreKind::Sh,
        0b010 => StoreKind::Sw,
        _ => {
            return Err(ZkvmError::UnsupportedFunct3 {
                funct3: raw.funct3(),
                opcode: raw.opcode(),
                word: raw.raw(),
            });
        },
    };
    Ok(Instruction::Store(op, SType::decode(raw.raw())))
}

fn decode_op_imm(raw: Word) -> (r: ZkvmResult<Instruction>)
    requires
        model::opcode_of(raw.val()) == 0b0010011,
    ensures
        r == base_i_of(raw.val()),
{
    let op = match raw.funct3() {
        0b000 => OpImmKind::Addi,
        0b010 => OpImmKind::Slti,
        0b011 => OpImmKind::Sltiu,
        0b100 => OpImmKind::Xori,
        0b110 => OpImmKind::Ori,
        0b111 => OpImmKind::Andi,
        0b001 => {
            if raw.funct7() != 0b0000000 {
                return Err(ZkvmError::UnsupportedFunct7 {
                    funct7: raw.funct7(),
                    funct3: raw.funct3(),
                    opcode: raw.opcode(),
                    word: raw.raw(),
                });
            }
            OpImmKind::Slli
        },
        0b101 => match raw.funct7() {
            0b0000000 => OpImmKind::Srli,
            0b0100000 => OpImmKind::Srai,
            _ => {
                return Err(ZkvmError::UnsupportedFunct7 {
                    funct7: raw.funct7(),
                    funct3: raw.funct3(),
                    opcode: raw.opcode(),
                    word: raw.raw(),
                });
            },
        },
        _ => {
            return Err(ZkvmError::UnsupportedFunct3 {
                funct3: raw.funct3(),
                opcode: raw.opcode(),
                word: raw.raw(),
            });
        },
    };
    Ok(Instruction::OpImm(op, IType::decode(raw.raw())))
}

fn decode_misc_mem(raw: Word) -> (r: ZkvmResult<Instruction>)
    requires
        model::opcode_of(raw.val()) == 0b0001111,
    ensures
        r == base_i_of(raw.val()),
{
    match raw.funct3() {
        0b000 => Ok(Instruction::Fence),
        _ => Err(ZkvmError::UnsupportedFunct3 {
            funct3: raw.funct3(),
            opcode: raw.opcode(),
            word: raw.raw(),
        }),
    }
}

fn decode_system(raw: Word) -> (r: ZkvmResult<Instruction>)
    requires
        model::opcode_of(raw.val()) == 0b1110011,
    ensures
        r == base_i_of(raw.val()),
{
    match raw.raw() {
        0x0000_0073 => Ok(Instruction::System(SystemKind::Ecall)),
        0x0010_0073 => Ok(Instruction::System(SystemKind::Ebreak)),
        _ => Err(ZkvmError::InvalidEncoding {
            word: raw.raw(),
            reason: "only ecall and ebreak are supported in the decoder",
        }),
    }
}

} // verus!
