//! A record-style decoder for the RV32I control-flow and upper-immediate
//! instructions: every field of the word, the immediate, and a mnemonic.
use vstd::prelude::*;
use crate::encoding::{funct3, funct7, imm_b, imm_i, imm_j, imm_u, opcode, rd, rs1, rs2};
use crate::error::ZkvmError;
use crate::model;

verus! {

/// The fields of a decoded word with its mnemonic and extension name.
#[derive(Debug, Clone, Copy, PartialEq, Eq)]
pub struct DecodedInstruction {
    pub raw: u32,
    pub opcode: u8,
    pub rd: u8,
    pub rs1: u8,
    pub rs2: u8,
    pub funct3: u8,
    pub funct7: u8,
    pub imm: i32,
    pub mnemonic: &'static str,
    pub extension: &'static str,
}

impl DecodedInstruction {
    pub fn new(
        raw: u32,
        opcode: u8,
        rd: u8,
        rs1: u8,
        rs2: u8,
        funct3: u8,
        funct7: u8,
        imm: i32,
        mnemonic: &'static str,
        extension: &'static str,
    ) -> (r: Self)
        ensures
            r == (DecodedInstruction { raw, opcode, rd, rs1, rs2, funct3, funct7, imm, mnemonic, extension }),
    {
        DecodedInstruction { raw, opcode, rd, rs1, rs2, funct3, funct7, imm, mnemonic, extension }
    }
}

/// The branch mnemonic selected by `funct3`.
pub open spec fn branch_mnemonic_of(funct3: u8) -> Option<&'static str> {
    if funct3 == 0 {
        Some("beq")
    } else if funct3 == 1 {
        Some("bne")
    } else if funct3 == 4 {
        Some("blt")
    } else if funct3 == 5 {
        Some("bge")
    } else if funct3 == 6 {
        Some("bltu")
    } else if funct3 == 7 {
        Some("bgeu")
    } else {
        None
    }
}

/// What `decode` makes of `raw`.
pub open spec fn record_of(raw: u32) -> Result<DecodedInstruction, ZkvmError> {
    let opcode = model::opcode_of(raw);
    let rd = model::rd_of(raw);
    let rs1 = model::rs1_of(raw);
    let rs2 = model::rs2_of(raw);
    let funct3 = model::funct3_of(raw);
    let record = |rd: u8, rs1: u8, rs2: u8, funct3: u8, imm: i32, mnemonic: &'static str|
        DecodedInstruction { raw, opcode, rd, rs1, rs2, funct3, funct7: 0, imm, mnemonic, extension: "I" };
    if opcode == 0b0110111 {
        Ok(record(rd, 0, 0, 0, model::imm_u_of(raw), "lui"))
    } else if opcode == 0b0010111 {
        Ok(record(rd, 0, 0, 0, model::imm_u_of(raw), "auipc"))
    } else if opcode == 0b1101111 {
        Ok(record(rd, 0, 0, 0, model::imm_j_of(raw), "jal"))
    } else if opcode == 0b1100111 {
        if funct3 == 0 {
            Ok(record(rd, rs1, 0, funct3, model::imm_i_of(raw), "jalr"))
        } else {
            Err(ZkvmError::UnsupportedFunct3 { opcode, funct3, word: raw })
        }
    } else if opcode == 0b1100011 {
        match branch_mnemonic_of(funct3) {
            Some(mnemonic) => Ok(record(0, rs1, rs2, funct3, model::imm_b_of(raw), mnemonic)),
            None => Err(ZkvmError::UnsupportedFunct3 { opcode, funct3, word: raw }),
        }
    } else {
        Err(ZkvmError::UnsupportedOpcode { opcode, word: raw })
    }
}

/// Decodes LUI, AUIPC, JAL, JALR and the branches into a field record.
pub fn decode(raw: u32) -> (r: Result<DecodedInstruction, ZkvmError>)
    ensures
        r == record_of(raw),
{
    let opcode = opcode(raw);
    let rd = rd(raw);
    let rs1 = rs1(raw);
    let rs2 = rs2(raw);
    let funct3 = funct3(raw);
    let _funct7 = funct7(raw);
    let decoded = match opcode {
        0b0110111 => DecodedInstruction::new(raw, opcode, rd, 0, 0, 0, 0, imm_u(raw), "lui", "I"),
        0b0010111 => DecodedInstruction::new(raw, opcode, rd, 0, 0, 0, 0, imm_u(raw), "auipc", "I"),
        0b1101111 => DecodedInstruction::new(raw, opcode, rd, 0, 0, 0, 0, imm_j(raw), "jal", "I"),
        0b1100111 => match funct3 {
            0b000 => DecodedInstruction::new(raw, opcode, rd, rs1, 0, funct3, 0, imm_i(raw), "jalr", "I"),
            _ => {
                return Err(ZkvmError::UnsupportedFunct3 { opcode, funct3, word: raw });
            },
        },
        0b1100011 => {
            let mnemonic = match funct3 {
                0b000 => "beq",
                0b001 => "bne",
                0b100 => "blt",
                0b101 => "bge",
                0b110 => "bltu",
                0b111 => "bgeu",
                _ => {
                    return Err(ZkvmError::UnsupportedFunct3 { opcode, funct3, word: raw });
                },
            };
            DecodedInstruction::new(raw, opcode, 0, rs1, rs2, funct3, 0, imm_b(raw), mnemonic, "I")
        },
        _ => return Err(ZkvmError::UnsupportedOpcode { opcode, word: raw }),
    };
    Ok(decoded)
}

} // verus!
