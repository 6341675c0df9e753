//! RV32M: decoding to typed registers, and the arithmetic of each operation
//! with the operands split into 16-bit limbs.
use vstd::prelude::*;
use crate::error::DecodeError;
use crate::fields::decode_r_type;
use crate::fields;
use crate::invariants::ensure_limb16;
use crate::model;
use crate::instruction::{m_op_kind_of, OpKind};
use crate::types::Instruction;
use crate::util::{div_trunc, high_u32, low_u32};

verus! {

/// The 16-bit limbs of two multiplication operands.
#[derive(Debug, Clone, Copy, PartialEq, Eq)]
pub struct Limb16Decomposition {
    pub a0: u16,
    pub a1: u16,
    pub b0: u16,
    pub b1: u16,
}

/// A decomposition under the name used by the zkVM's multiplication trace.
pub type MulDecomposition = Limb16Decomposition;

impl Limb16Decomposition {
    /// The left operand the limbs stand for.
    pub open spec fn lhs_value(self) -> int {
        self.a0 + self.a1 * 0x10000
    }

    /// The right operand the limbs stand for.
    pub open spec fn rhs_value(self) -> int {
        self.b0 + self.b1 * 0x10000
    }

    pub fn from_operands(lhs: u32, rhs: u32) -> (r: Self)
        ensures
            r.a0 == lhs % 0x10000,
            r.a1 == lhs / 0x10000,
            r.b0 == rhs % 0x10000,
            r.b1 == rhs / 0x10000,
            r.lhs_value() == lhs,
            r.rhs_value() == rhs,
    {
        proof {
            model::lemma_limb_split(lhs);
            model::lemma_limb_split(rhs);
        }
        Self {
            a0: (lhs & 0xffff) as u16,
            a1: (lhs >> 16) as u16,
            b0: (rhs & 0xffff) as u16,
            b1: (rhs >> 16) as u16,
        }
    }

    pub fn lhs(self) -> (r: u32)
        ensures
            r == self.lhs_value(),
    {
        proof { model::lemma_join16(self.a0, self.a1); }
        ((self.a1 as u32) << 16) | self.a0 as u32
    }

    pub fn rhs(self) -> (r: u32)
        ensures
            r == self.rhs_value(),
    {
        proof { model::lemma_join16(self.b0, self.b1); }
        ((self.b1 as u32) << 16) | self.b0 as u32
    }

    /// The four 16-by-16-bit partial products.
    pub fn partial_products(self) -> (r: (u64, u64, u64, u64))
        ensures
            r.0 == self.a0 * self.b0,
            r.1 == self.a0 * self.b1,
            r.2 == self.a1 * self.b0,
            r.3 == self.a1 * self.b1,
    {
        proof { model::lemma_limb_product(self.lhs_value() as u32, self.rhs_value() as u32); }
        let p00 = self.a0 as u64 * self.b0 as u64;
        let p01 = self.a0 as u64 * self.b1 as u64;
        let p10 = self.a1 as u64 * self.b0 as u64;
        let p11 = self.a1 as u64 * self.b1 as u64;
        (p00, p01, p10, p11)
    }

    /// The full product of the two operands, recombined from the partial products.
    pub fn product_u64(self) -> (r: u64)
        ensures
            r == self.lhs_value() * self.rhs_value(),
    {
        let (p00, p01, p10, p11) = self.partial_products();
        proof {
            model::lemma_limb_product(self.lhs_value() as u32, self.rhs_value() as u32);
            model::lemma_u64_shifts((p01 + p10) as u64);
            model::lemma_u64_shifts(p11);
        }
        p00 + ((p01 + p10) << 16) + (p11 << 32)
    }

    /// Checks that both operands recompose from their limbs; it always does.
    pub fn validate(self) -> (r: Result<Self, DecodeError>)
        ensures
            r == Ok::<Self, DecodeError>(self),
    {
        match ensure_limb16(self.lhs(), self.a0, self.a1, "lhs 16-bit limb recomposition") {
            Ok(()) => {},
            Err(e) => return Err(e),
        }
        match ensure_limb16(self.rhs(), self.b0, self.b1, "rhs 16-bit limb recomposition") {
            Ok(()) => {},
            Err(e) => return Err(e),
        }
        Ok(self)
    }
}

pub fn decompose_mul_operands(lhs: u32, rhs: u32) -> (r: Result<Limb16Decomposition, DecodeError>)
    ensures
        r == Ok::<Limb16Decomposition, DecodeError>((Limb16Decomposition {
            a0: (lhs % 0x10000) as u16,
            a1: (lhs / 0x10000) as u16,
            b0: (rhs % 0x10000) as u16,
            b1: (rhs / 0x10000) as u16,
        })),
{
    Limb16Decomposition::from_operands(lhs, rhs).validate()
}

/// Low word of the product (MUL).
pub fn mul_low_u32(lhs: u32, rhs: u32) -> (r: Result<u32, DecodeError>)
    ensures
        r == Ok::<u32, DecodeError>(((lhs * rhs) % 0x1_0000_0000) as u32),
{
    let limbs = match decompose_mul_operands(lhs, rhs) {
        Ok(limbs) => limbs,
        Err(e) => return Err(e),
    };
    Ok(low_u32(limbs.product_u64()))
}

/// High word of the unsigned product (MULHU).
pub fn mulhu_unsigned(lhs: u32, rhs: u32) -> (r: Result<u32, DecodeError>)
    ensures
        r == Ok::<u32, DecodeError>(((lhs * rhs) / 0x1_0000_0000) as u32),
{
    let limbs = match decompose_mul_operands(lhs, rhs) {
        Ok(limbs) => limbs,
        Err(e) => return Err(e),
    };
    proof { model::lemma_limb_product(lhs, rhs); }
    Ok(high_u32(limbs.product_u64()))
}

/// High word of the signed product (MULH), as the bits of a word.
pub fn mulh_signed(lhs: i32, rhs: i32) -> (r: Result<u32, DecodeError>)
    ensures
        r == Ok::<u32, DecodeError>((((lhs * rhs) / 0x1_0000_0000) % 0x1_0000_0000) as u32),
{
    match decompose_mul_operands(lhs as u32, rhs as u32) {
        Ok(_) => {},
        Err(e) => return Err(e),
    }
    proof { model::lemma_signed_product_bounds(lhs as int, rhs as int); }
    let product = (lhs as i64 as i128) * (rhs as i64 as i128);
    proof {
        model::lemma_i128_shr32(product);
        model::lemma_i64_as_u32((product >> 32) as i64);
    }
    Ok(((product >> 32) as i64) as u32)
}

/// High word of the signed-by-unsigned product (MULHSU), as the bits of a word.
pub fn mulhsu_signed_unsigned(lhs: i32, rhs: u32) -> (r: Result<u32, DecodeError>)
    ensures
        r == Ok::<u32, DecodeError>((((lhs * rhs) / 0x1_0000_0000) % 0x1_0000_0000) as u32),
{
    match decompose_mul_operands(lhs as u32, rhs) {
        Ok(_) => {},
        Err(e) => return Err(e),
    }
    proof { model::lemma_signed_unsigned_product_bounds(lhs as int, rhs as int); }
    let product = (lhs as i64 as i128) * (rhs as i128);
    proof {
        model::lemma_i128_shr32(product);
        model::lemma_i64_as_u32((product >> 32) as i64);
    }
    Ok(((product >> 32) as i64) as u32)
}

/// Signed division (DIV), as the bits of a word.
pub fn div_signed(lhs: i32, rhs: i32) -> (r: Result<u32, DecodeError>)
    ensures
        r == Ok::<u32, DecodeError>(model::as_word(model::div_signed_of(lhs, rhs)) as u32),
{
    proof { model::lemma_i32_as_u32(lhs); }
    if rhs == 0 {
        Ok(u32::MAX)
    } else if lhs == i32::MIN && rhs == -1 {
        Ok(lhs as u32)
    } else {
        let q = div_trunc(lhs, rhs);
        proof { model::lemma_i32_as_u32(q); }
        Ok(q as u32)
    }
}

/// Unsigned division (DIVU).
pub fn div_unsigned(lhs: u32, rhs: u32) -> (r: Result<u32, DecodeError>)
    ensures
        r == Ok::<u32, DecodeError>(model::div_unsigned_of(lhs, rhs) as u32),
{
    if rhs == 0 {
        Ok(u32::MAX)
    } else {
        Ok(lhs / rhs)
    }
}

/// Signed remainder (REM), as the bits of a word.
pub fn rem_signed(lhs: i32, rhs: i32) -> (r: Result<u32, DecodeError>)
    ensures
        r == Ok::<u32, DecodeError>(model::as_word(model::rem_signed_of(lhs, rhs)) as u32),
{
    proof { model::lemma_i32_as_u32(lhs); }
    if rhs == 0 {
        Ok(lhs as u32)
    } else if lhs == i32::MIN && rhs == -1 {
        Ok(0)
    } else {
        proof { model::lemma_trunc_rem(lhs as int, rhs as int); }
        let m = lhs % rhs;
        proof { model::lemma_i32_as_u32(m); }
        Ok(m as u32)
    }
}

/// Unsigned remainder (REMU).
pub fn rem_unsigned(lhs: u32, rhs: u32) -> (r: Result<u32, DecodeError>)
    ensures
        r == Ok::<u32, DecodeError>(model::rem_unsigned_of(lhs, rhs) as u32),
{
    if rhs == 0 {
        Ok(lhs)
    } else {
        Ok(lhs % rhs)
    }
}

/// Decodes an R-type word with funct7 0b0000001 to its M-extension
/// operation; the opcode field is not consulted.
pub fn decode_rv32m(word: u32) -> (r: Result<Instruction, DecodeError>)
    ensures
        model::funct7_of(word) != 1 ==> r == Err::<Instruction, DecodeError>(
            DecodeError::InvalidFunct7 { opcode: 0b0110011, funct7: model::funct7_of(word) },
        ),
        model::funct7_of(word) == 1 ==> (r matches Ok(i) && i.m_form() == Some(
            (model::funct3_of(word), model::rd_of(word), model::rs1_of(word), model::rs2_of(word)),
        )),
{
    let r = match decode_r_type(word) {
        Ok(r) => r,
        Err(e) => return Err(e),
    };
    if r.funct7 != 0b0000001 {
        return Err(DecodeError::InvalidFunct7 { opcode: 0b0110011, funct7: r.funct7 });
    }
    match r.funct3 {
        0b000 => Ok(Instruction::Mul { rd: r.rd, rs1: r.rs1, rs2: r.rs2 }),
        0b001 => Ok(Instruction::Mulh { rd: r.rd, rs1: r.rs1, rs2: r.rs2 }),
        0b010 => Ok(Instruction::Mulhsu { rd: r.rd, rs1: r.rs1, rs2: r.rs2 }),
        0b011 => Ok(Instruction::Mulhu { rd: r.rd, rs1: r.rs1, rs2: r.rs2 }),
        0b100 => Ok(Instruction::Div { rd: r.rd, rs1: r.rs1, rs2: r.rs2 }),
        0b101 => Ok(Instruction::Divu { rd: r.rd, rs1: r.rs1, rs2: r.rs2 }),
        0b110 => Ok(Instruction::Rem { rd: r.rd, rs1: r.rs1, rs2: r.rs2 }),
        0b111 => Ok(Instruction::Remu { rd: r.rd, rs1: r.rs1, rs2: r.rs2 }),
        other => Err(DecodeError::InvalidFunct3 { opcode: 0b0110011, funct3: other }),
    }
}

/// The operation of an M-extension instruction; `None` for any other.
pub open spec fn typed_m_kind_of(i: Instruction) -> Option<OpKind> {
    match i {
        Instruction::Mul { .. } => Some(OpKind::Mul),
        Instruction::Mulh { .. } => Some(OpKind::Mulh),
        Instruction::Mulhsu { .. } => Some(OpKind::Mulhsu),
        Instruction::Mulhu { .. } => Some(OpKind::Mulhu),
        Instruction::Div { .. } => Some(OpKind::Div),
        Instruction::Divu { .. } => Some(OpKind::Divu),
        Instruction::Rem { .. } => Some(OpKind::Rem),
        Instruction::Remu { .. } => Some(OpKind::Remu),
        _ => None,
    }
}

/// `decode_rv32m` follows the RV32M funct3 table: whatever it decodes is the
/// operation that `instruction::m_op_kind_of` assigns to the word's funct3 —
/// the operation the RV32IM decoder (`crate::decode`) gives an M-extension
/// word.
pub proof fn law_decode_rv32m_follows_funct3_table(i: Instruction, word: u32)
    requires
        i.m_form() == Some(
            (model::funct3_of(word), model::rd_of(word), model::rs1_of(word), model::rs2_of(word)),
        ),
    ensures
        typed_m_kind_of(i) == Some(m_op_kind_of(model::funct3_of(word))),
        (model::opcode_of(word) == 0b0110011 && model::funct7_of(word) == 1) ==> crate::decoder::decode_of(
            word,
        ) == Ok::<crate::instruction::Instruction, crate::error::ZkvmError>(
            crate::instruction::Instruction::Op {
                kind: m_op_kind_of(model::funct3_of(word)),
                rd: model::rd_of(word),
                rs1: model::rs1_of(word),
                rs2: model::rs2_of(word),
            },
        ),
{
}

} // verus!
