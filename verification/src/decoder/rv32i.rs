//! RV32I decoding to one variant per mnemonic, with typed registers.
use vstd::prelude::*;
use crate::error::DecodeError;
use crate::fields::{
    decode_b_type, decode_i_type, decode_j_type, decode_r_type, decode_s_type, decode_u_type,
    funct3, funct7, opcode,
};
use crate::model;
use crate::register::Register;
use crate::types::Instruction;

verus! {

broadcast use {Register::lemma_of_id_of_register, Register::lemma_id_of_of_id};

/// What the RV32I decoder makes of `word`.
pub open spec fn rv32i_decode_of(word: u32) -> Result<Instruction, DecodeError> {
    let opcode = model::opcode_of(word);
    let funct3 = model::funct3_of(word);
    let funct7 = model::funct7_of(word);
    let rd = Register::of_id(model::rd_of(word));
    let rs1 = Register::of_id(model::rs1_of(word));
    let rs2 = Register::of_id(model::rs2_of(word));
    let bad_funct3 = Err(DecodeError::InvalidFunct3 { opcode, funct3 });
    let bad_funct7 = Err(DecodeError::InvalidFunct7 { opcode, funct7 });
    if opcode == 0b0110111 {
        Ok(Instruction::Lui { rd, imm: model::imm_u_of(word) })
    } else if opcode == 0b0010111 {
        Ok(Instruction::Auipc { rd, imm: model::imm_u_of(word) })
    } else if opcode == 0b1101111 {
        Ok(Instruction::Jal { rd, imm: model::imm_j_of(word) })
    } else if opcode == 0b1100111 {
        if funct3 == 0 {
            Ok(Instruction::Jalr { rd, rs1, imm: model::imm_i_of(word) })
        } else {
            bad_funct3
        }
    } else if opcode == 0b1100011 {
        let imm = model::imm_b_of(word);
        if funct3 == 0 {
            Ok(Instruction::Beq { rs1, rs2, imm })
        } else if funct3 == 1 {
            Ok(Instruction::Bne { rs1, rs2, imm })
        } else if funct3 == 4 {
            Ok(Instruction::Blt { rs1, rs2, imm })
        } else if funct3 == 5 {
            Ok(Instruction::Bge { rs1, rs2, imm })
        } else if funct3 == 6 {
            Ok(Instruction::Bltu { rs1, rs2, imm })
        } else if funct3 == 7 {
            Ok(Instruction::Bgeu { rs1, rs2, imm })
        } else {
            bad_funct3
        }
    } else if opcode == 0b0000011 {
        let imm = model::imm_i_of(word);
        if funct3 == 0 {
            Ok(Instruction::Lb { rd, rs1, imm })
        } else if funct3 == 1 {
            Ok(Instruction::Lh { rd, rs1, imm })
        } else if funct3 == 2 {
            Ok(Instruction::Lw { rd, rs1, imm })
        } else if funct3 == 4 {
            Ok(Instruction::Lbu { rd, rs1, imm })
        } else if funct3 == 5 {
            Ok(Instruction::Lhu { rd, rs1, imm })
        } else {
            bad_funct3
        }
    } else if opcode == 0b0100011 {
        let imm = model::imm_s_of(word);
        if funct3 == 0 {
            Ok(Instruction::Sb { rs1, rs2, imm })
        } else if funct3 == 1 {
            Ok(Instruction::Sh { rs1, rs2, imm })
        } else if funct3 == 2 {
            Ok(Instruction::Sw { rs1, rs2, imm })
        } else {
            bad_funct3
        }
    } else if opcode == 0b0010011 {
        let imm = model::imm_i_of(word);
        let shamt = model::rs2_of(word);
        if funct3 == 0 {
            Ok(Instruction::Addi { rd, rs1, imm })
        } else if funct3 == 2 {
            Ok(Instruction::Slti { rd, rs1, imm })
        } else if funct3 == 3 {
            Ok(Instruction::Sltiu { rd, rs1, imm })
        } else if funct3 == 4 {
            Ok(Instruction::Xori { rd, rs1, imm })
        } else if funct3 == 6 {
            Ok(Instruction::Ori { rd, rs1, imm })
        } else if funct3 == 7 {
            Ok(Instruction::Andi { rd, rs1, imm })
        } else if funct3 == 1 {
            if funct7 == 0 { Ok(Instruction::Slli { rd, rs1, shamt }) } else { bad_funct7 }
        } else if funct7 == 0 {
            Ok(Instruction::Srli { rd, rs1, shamt })
        } else if funct7 == 0b0100000 {
            Ok(Instruction::Srai { rd, rs1, shamt })
        } else {
            bad_funct7
        }
    } else if opcode == 0b0110011 {
        if funct7 == 0 {
            if funct3 == 0 {
                Ok(Instruction::Add { rd, rs1, rs2 })
            } else if funct3 == 1 {
                Ok(Instruction::Sll { rd, rs1, rs2 })
            } else if funct3 == 2 {
                Ok(Instruction::Slt { rd, rs1, rs2 })
            } else if funct3 == 3 {
                Ok(Instruction::Sltu { rd, rs1, rs2 })
            } else if funct3 == 4 {
                Ok(Instruction::Xor { rd, rs1, rs2 })
            } else if funct3 == 5 {
                Ok(Instruction::Srl { rd, rs1, rs2 })
            } else if funct3 == 6 {
                Ok(Instruction::Or { rd, rs1, rs2 })
            } else {
                Ok(Instruction::And { rd, rs1, rs2 })
            }
        } else if funct7 == 0b0100000 && funct3 == 0 {
            Ok(Instruction::Sub { rd, rs1, rs2 })
        } else if funct7 == 0b0100000 && funct3 == 5 {
            Ok(Instruction::Sra { rd, rs1, rs2 })
        } else if funct7 == 1 {
            Err(DecodeError::UnsupportedInstruction(word))
        } else {
            bad_funct7
        }
    } else if opcode == 0b0001111 {
        if funct3 == 0 {
            Ok(Instruction::Fence {
                fm: (word / 0x1000_0000) as u8,
                pred: ((word / 0x100_0000) % 0x10) as u8,
                succ: ((word / 0x10_0000) % 0x10) as u8,
            })
        } else {
            bad_funct3
        }
    } else if opcode == 0b1110011 {
        if funct3 != 0 {
            bad_funct3
        } else if model::rd_of(word) != 0 || model::rs1_of(word) != 0 {
            Err(DecodeError::UnsupportedInstruction(word))
        } else if model::upper12_of(word) == 0 {
            Ok(Instruction::Ecall)
        } else if model::upper12_of(word) == 1 {
            Ok(Instruction::Ebreak)
        } else {
            Err(DecodeError::UnsupportedInstruction(word))
        }
    } else {
        Err(DecodeError::InvalidOpcode(opcode))
    }
}

/// Decodes an RV32I word to one variant per mnemonic.
pub fn decode_rv32i(word: u32) -> (r: Result<Instruction, DecodeError>)
    ensures
        r == rv32i_decode_of(word),
{
    proof { model::lemma_word_fields(word); }
    let op = opcode(word);
    match op {
        0b0110111 => {
            let u = match decode_u_type(word) { Ok(u) => u, Err(e) => return Err(e) };
            Ok(Instruction::Lui { rd: u.rd, imm: u.imm })
        },
        0b0010111 => {
            let u = match decode_u_type(word) { Ok(u) => u, Err(e) => return Err(e) };
            Ok(Instruction::Auipc { rd: u.rd, imm: u.imm })
        },
        0b1101111 => {
            let j = match decode_j_type(word) { Ok(j) => j, Err(e) => return Err(e) };
            Ok(Instruction::Jal { rd: j.rd, imm: j.imm })
        },
        0b1100111 => {
            let i = match decode_i_type(word) { Ok(i) => i, Err(e) => return Err(e) };
            match i.funct3 {
                0b000 => Ok(Instruction::Jalr { rd: i.rd, rs1: i.rs1, imm: i.imm }),
                other => Err(DecodeError::InvalidFunct3 { opcode: op, funct3: other }),
            }
        },
        0b1100011 => {
            let b = match decode_b_type(word) { Ok(b) => b, Err(e) => return Err(e) };
            match b.funct3 {
                0b000 => Ok(Instruction::Beq { rs1: b.rs1, rs2: b.rs2, imm: b.imm }),
                0b001 => Ok(Instruction::Bne { rs1: b.rs1, rs2: b.rs2, imm: b.imm }),
                0b100 => Ok(Instruction::Blt { rs1: b.rs1, rs2: b.rs2, imm: b.imm }),
                0b101 => Ok(Instruction::Bge { rs1: b.rs1, rs2: b.rs2, imm: b.imm }),
                0b110 => Ok(Instruction::Bltu { rs1: b.rs1, rs2: b.rs2, imm: b.imm }),
                0b111 => Ok(Instruction::Bgeu { rs1: b.rs1, rs2: b.rs2, imm: b.imm }),
                other => Err(DecodeError::InvalidFunct3 { opcode: op, funct3: other }),
            }
        },
        0b0000011 => {
            let i = match decode_i_type(word) { Ok(i) => i, Err(e) => return Err(e) };
            match i.funct3 {
                0b000 => Ok(Instruction::Lb { rd: i.rd, rs1: i.rs1, imm: i.imm }),
                0b001 => Ok(Instruction::Lh { rd: i.rd, rs1: i.rs1, imm: i.imm }),
                0b010 => Ok(Instruction::Lw { rd: i.rd, rs1: i.rs1, imm: i.imm }),
                0b100 => Ok(Instruction::Lbu { rd: i.rd, rs1: i.rs1, imm: i.imm }),
                0b101 => Ok(Instruction::Lhu { rd: i.rd, rs1: i.rs1, imm: i.imm }),
                other => Err(DecodeError::InvalidFunct3 { opcode: op, funct3: other }),
            }
        },
        0b0100011 => {
            let s = match decode_s_type(word) { Ok(s) => s, Err(e) => return Err(e) };
            match s.funct3 {
                0b000 => Ok(Instruction::Sb { rs1: s.rs1, rs2: s.rs2, imm: s.imm }),
                0b001 => Ok(Instruction::Sh { rs1: s.rs1, rs2: s.rs2, imm: s.imm }),
                0b010 => Ok(Instruction::Sw { rs1: s.rs1, rs2: s.rs2, imm: s.imm }),
                other => Err(DecodeError::InvalidFunct3 { opcode: op, funct3: other }),
            }
        },
        0b0010011 => decode_op_imm(word),
        0b0110011 => decode_op(word),
        0b0001111 => match funct3(word) {
            0b000 => Ok(Instruction::Fence {
                fm: ((word >> 28) & 0x0f) as u8,
                pred: ((word >> 24) & 0x0f) as u8,
                succ: ((word >> 20) & 0x0f) as u8,
            }),
            other => Err(DecodeError::InvalidFunct3 { opcode: op, funct3: other }),
        },
        0b1110011 => {
            let i = match decode_i_type(word) { Ok(i) => i, Err(e) => return Err(e) };
            if i.funct3 != 0 {
                return Err(DecodeError::InvalidFunct3 { opcode: op, funct3: i.funct3 });
            }
            if i.rs1.index() != 0 || i.rd.index() != 0 {
                return Err(DecodeError::UnsupportedInstruction(word));
            }
            match ((word >> 20) & 0x0fff) as u16 {
                0 => Ok(Instruction::Ecall),
                1 => Ok(Instruction::Ebreak),
                _ => Err(DecodeError::UnsupportedInstruction(word)),
            }
        },
        other => Err(DecodeError::InvalidOpcode(other)),
    }
}

/// The OP-IMM arm of `decode_rv32i`.
fn decode_op_imm(word: u32) -> (r: Result<Instruction, DecodeError>)
    requires
        model::opcode_of(word) == 0b0010011,
    ensures
        r == rv32i_decode_of(word),
{
    proof { model::lemma_word_fields(word); }
    let op = opcode(word);
    let i = match decode_i_type(word) { Ok(i) => i, Err(e) => return Err(e) };
    let shamt = ((word >> 20) & 0x1f) as u8;
    match i.funct3 {
        0b000 => Ok(Instruction::Addi { rd: i.rd, rs1: i.rs1, imm: i.imm }),
        0b010 => Ok(Instruction::Slti { rd: i.rd, rs1: i.rs1, imm: i.imm }),
        0b011 => Ok(Instruction::Sltiu { rd: i.rd, rs1: i.rs1, imm: i.imm }),
        0b100 => Ok(Instruction::Xori { rd: i.rd, rs1: i.rs1, imm: i.imm }),
        0b110 => Ok(Instruction::Ori { rd: i.rd, rs1: i.rs1, imm: i.imm }),
        0b111 => Ok(Instruction::Andi { rd: i.rd, rs1: i.rs1, imm: i.imm }),
        0b001 => match funct7(word) {
            0b0000000 => Ok(Instruction::Slli { rd: i.rd, rs1: i.rs1, shamt }),
            other => Err(DecodeError::InvalidFunct7 { opcode: op, funct7: other }),
        },
        0b101 => match funct7(word) {
            0b0000000 => Ok(Instruction::Srli { rd: i.rd, rs1: i.rs1, shamt }),
            0b0100000 => Ok(Instruction::Srai { rd: i.rd, rs1: i.rs1, shamt }),
            other => Err(DecodeError::InvalidFunct7 { opcode: op, funct7: other }),
        },
        other => Err(DecodeError::InvalidFunct3 { opcode: op, funct3: other }),
    }
}

/// The OP arm of `decode_rv32i`: base register-register operations.
fn decode_op(word: u32) -> (r: Result<Instruction, DecodeError>)
    requires
        model::opcode_of(word) == 0b0110011,
    ensures
        r == rv32i_decode_of(word),
{
    let op = opcode(word);
    let r = match decode_r_type(word) { Ok(r) => r, Err(e) => return Err(e) };
    match (r.funct3, r.funct7) {
        (0b000, 0b0000000) => Ok(Instruction::Add { rd: r.rd, rs1: r.rs1, rs2: r.rs2 }),
        (0b000, 0b0100000) => Ok(Instruction::Sub { rd: r.rd, rs1: r.rs1, rs2: r.rs2 }),
        (0b001, 0b0000000) => Ok(Instruction::Sll { rd: r.rd, rs1: r.rs1, rs2: r.rs2 }),
        (0b010, 0b0000000) => Ok(Instruction::Slt { rd: r.rd, rs1: r.rs1, rs2: r.rs2 }),
        (0b011, 0b0000000) => Ok(Instruction::Sltu { rd: r.rd, rs1: r.rs1, rs2: r.rs2 }),
        (0b100, 0b0000000) => Ok(Instruction::Xor { rd: r.rd, rs1: r.rs1, rs2: r.rs2 }),
        (0b101, 0b0000000) => Ok(Instruction::Srl { rd: r.rd, rs1: r.rs1, rs2: r.rs2 }),
        (0b101, 0b0100000) => Ok(Instruction::Sra { rd: r.rd, rs1: r.rs1, rs2: r.rs2 }),
        (0b110, 0b0000000) => Ok(Instruction::Or { rd: r.rd, rs1: r.rs1, rs2: r.rs2 }),
        (0b111, 0b0000000) => Ok(Instruction::And { rd: r.rd, rs1: r.rs1, rs2: r.rs2 }),
        (_, 0b0000001) => Err(DecodeError::UnsupportedInstruction(word)),
        (_, other) => Err(DecodeError::InvalidFunct7 { opcode: op, funct7: other }),
    }
}

} // verus!
