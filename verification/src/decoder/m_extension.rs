//! RV32M decoding and the 16-bit-limb multiplication that the M extension's
//! arithmetic is reduced to.
use vstd::prelude::*;
use crate::encoding;
use crate::error::ZkvmError;
use crate::instruction::{DecodedInstruction, Instruction, OpKind};
use crate::instruction;
use crate::model;

verus! {

/// A 32-bit value split into two 16-bit limbs.
#[derive(Debug, Clone, Copy, PartialEq, Eq)]
pub struct Limb16 {
    pub low: u16,
    pub high: u16,
}

pub fn decompose(val: u32) -> (r: Limb16)
    ensures
        r.low == val % 0x10000,
        r.high == val / 0x10000,
        r.low + r.high * 0x10000 == val,
{
    proof { model::lemma_word_fields(val); }
    Limb16 { low: val as u16, high: (val >> 16) as u16 }
}

/// The full 64-bit product of two words, computed from their 16-bit limbs.
pub fn mul_u32_wide(lhs: u32, rhs: u32) -> (r: u64)
    ensures
        r == lhs * rhs,
{
    let left = decompose(lhs);
    let right = decompose(rhs);
    proof { model::lemma_limb_product(lhs, rhs); }

    let low = (left.low as u64) * (right.low as u64);
    let cross = (left.low as u64) * (right.high as u64) + (left.high as u64) * (right.low as u64);
    let high = (left.high as u64) * (right.high as u64);
    proof {
        model::lemma_u64_shifts(cross);
        model::lemma_u64_shifts(high);
    }
    low + (cross << 16) + (high << 32)
}

/// Whether the limb product agrees with the native product; it always does.
pub fn lemma_6_1_1_parity(lhs: u32, rhs: u32) -> (r: bool)
    ensures
        r,
{
    mul_u32_wide(lhs, rhs) == (lhs as u64) * (rhs as u64)
}

/// High word of the unsigned product (MULHU).
pub fn mulhu(lhs: u32, rhs: u32) -> (r: u32)
    ensures
        r == (lhs * rhs) / 0x1_0000_0000,
{
    let p = mul_u32_wide(lhs, rhs);
    proof { model::lemma_u64_shifts(p); }
    (p >> 32) as u32
}

/// High word of the signed product (MULH), as a signed value.
pub fn mulh(lhs: i32, rhs: i32) -> (r: i32)
    ensures
        r == (lhs * rhs) / 0x1_0000_0000,
{
    proof { model::lemma_signed_product_bounds(lhs as int, rhs as int); }
    let p = (lhs as i64) * (rhs as i64);
    proof { model::lemma_i64_shr32(p); }
    (p >> 32) as i32
}

/// High word of the signed-by-unsigned product (MULHSU), as a signed value.
pub fn mulhsu(lhs: i32, rhs: u32) -> (r: i32)
    ensures
        r == (lhs * rhs) / 0x1_0000_0000,
{
    proof { model::lemma_signed_unsigned_product_bounds(lhs as int, rhs as int); }
    let p = (lhs as i64) * (rhs as i64);
    proof { model::lemma_i64_shr32(p); }
    (p >> 32) as i32
}

/// The M-extension instruction encoded by `word`, if it is one.
pub open spec fn m_decode_of(word: u32) -> Result<Instruction, ZkvmError> {
    if model::opcode_of(word) != encoding::OPCODE_OP || model::funct7_of(word) != encoding::FUNCT7_M {
        Err(ZkvmError::InvalidEncoding {
            word,
            reason: "M-extension decode requires opcode 0b0110011 and funct7 0b0000001",
        })
    } else {
        Ok(Instruction::Op {
            kind: instruction::m_op_kind_of(model::funct3_of(word)),
            rd: model::rd_of(word),
            rs1: model::rs1_of(word),
            rs2: model::rs2_of(word),
        })
    }
}

/// Decodes an RV32M instruction word (opcode OP, funct7 0b0000001).
pub fn decode_m_extension(word: u32) -> (r: Result<DecodedInstruction, ZkvmError>)
    ensures
        match r {
            Ok(d) => d.word == word && m_decode_of(word) == Ok::<Instruction, ZkvmError>(d.instruction),
            Err(e) => m_decode_of(word) == Err::<Instruction, ZkvmError>(e),
        },
{
    if encoding::opcode(word) != 0b0110011 || encoding::funct7(word) != 0b0000001 {
        return Err(ZkvmError::InvalidEncoding {
            word,
            reason: "M-extension decode requires opcode 0b0110011 and funct7 0b0000001",
        });
    }
    let funct3 = encoding::funct3(word);
    let kind = match funct3 {
        0b000 => OpKind::Mul,
        0b001 => OpKind::Mulh,
        0b010 => OpKind::Mulhsu,
        0b011 => OpKind::Mulhu,
        0b100 => OpKind::Div,
        0b101 => OpKind::Divu,
        0b110 => OpKind::Rem,
        _ => OpKind::Remu,
    };
    let instruction = Instruction::Op {
        kind,
        rd: encoding::rd(word),
        rs1: encoding::rs1(word),
        rs2: encoding::rs2(word),
    };
    Ok(DecodedInstruction::new(word, instruction))
}

} // verus!
