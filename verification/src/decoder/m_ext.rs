//! M-extension decoding as a partition of the OP encoding class, and the
//! 16-bit-limb multiplication that computes the M extension's products.
use vstd::prelude::*;
use crate::decoder::fields::{funct3, funct7, opcode, rd, rs1, rs2};
use crate::decoder::invariants;
use crate::error::ZkvmError;
use crate::instruction::OpKind;
use crate::instruction;
use crate::model;
use crate::types::Instruction;

verus! {

/// The OP major opcode.
pub const OP_OPCODE: u8 = 0b0110011;
/// funct7 of the M extension.
pub const M_FUNCT7: u8 = 0b0000001;

/// The M operation `word` encodes, or why it encodes none.
pub open spec fn m_partition_of(word: u32) -> Result<OpKind, ZkvmError> {
    if model::opcode_of(word) != OP_OPCODE {
        Err(ZkvmError::InvalidOpcode { opcode: model::opcode_of(word), word })
    } else if model::funct7_of(word) != M_FUNCT7 {
        Err(ZkvmError::InvalidFunct7 {
            opcode: OP_OPCODE,
            funct3: model::funct3_of(word),
            funct7: model::funct7_of(word),
            word,
        })
    } else {
        Ok(instruction::m_op_kind_of(model::funct3_of(word)))
    }
}

/// Within the OP encoding class, `funct7 == 0b0000001` splits the M extension
/// into exactly eight cases indexed by funct3: each funct3 value selects one
/// operation and no two select the same one.
pub fn lemma_6_1_1(word: u32) -> (r: Result<OpKind, ZkvmError>)
    ensures
        r == m_partition_of(word),
{
    if opcode(word) != OP_OPCODE {
        return Err(ZkvmError::InvalidOpcode { opcode: opcode(word), word });
    }
    if funct7(word) != M_FUNCT7 {
        return Err(ZkvmError::InvalidFunct7 { opcode: OP_OPCODE, funct3: funct3(word), funct7: funct7(word), word });
    }
    let partition: [OpKind; 8] = [
        OpKind::Mul,
        OpKind::Mulh,
        OpKind::Mulhsu,
        OpKind::Mulhu,
        OpKind::Div,
        OpKind::Divu,
        OpKind::Rem,
        OpKind::Remu,
    ];
    let index = funct3(word) as usize;
    if index < 8 {
        Ok(partition[index])
    } else {
        Err(ZkvmError::DecodeInvariantViolation {
            word,
            message: "funct3 escaped 3-bit partition in Lemma 6.1.1",
        })
    }
}

/// Every funct3 value selects an M operation, and distinct values select distinct ones.
pub proof fn law_m_partition_is_total_and_disjoint(f: u8, g: u8)
    requires
        f < 8,
        g < 8,
        f != g,
    ensures
        instruction::is_m_op(instruction::m_op_kind_of(f)),
        instruction::m_op_kind_of(f) != instruction::m_op_kind_of(g),
{
}

pub fn is_m_extension(word: u32) -> (r: bool)
    ensures
        r == (model::opcode_of(word) == OP_OPCODE && model::funct7_of(word) == M_FUNCT7),
{
    opcode(word) == OP_OPCODE && funct7(word) == M_FUNCT7
}

/// Decodes an M-extension word into an operation with typed registers.
pub fn decode(word: u32) -> (r: Result<Instruction, ZkvmError>)
    ensures
        match m_partition_of(word) {
            Ok(kind) => r matches Ok(Instruction::Op { kind: k, rd: d, rs1: s1, rs2: s2 })
                && k == kind && d.id() == model::rd_of(word) && s1.id() == model::rs1_of(word)
                && s2.id() == model::rs2_of(word),
            Err(e) => r == Err::<Instruction, ZkvmError>(e),
        },
{
    let kind = match lemma_6_1_1(word) {
        Ok(kind) => kind,
        Err(e) => return Err(e),
    };
    let rd = match invariants::register(rd(word), "m-extension rd") {
        Ok(reg) => reg,
        Err(e) => return Err(e),
    };
    let rs1 = match invariants::register(rs1(word), "m-extension rs1") {
        Ok(reg) => reg,
        Err(e) => return Err(e),
    };
    let rs2 = match invariants::register(rs2(word), "m-extension rs2") {
        Ok(reg) => reg,
        Err(e) => return Err(e),
    };
    Ok(Instruction::Op { kind, rd, rs1, rs2 })
}

/// The two 16-bit limbs of a word, low limb first.
pub fn decompose_u32_limb16(value: u32) -> (r: [u16; 2])
    ensures
        r[0] == value % 0x10000,
        r[1] == value / 0x10000,
{
    proof { model::lemma_word_fields(value); }
    [value as u16, (value >> 16) as u16]
}

/// The word whose 16-bit limbs are `limbs`, low limb first.
pub fn compose_u32_limb16(limbs: [u16; 2]) -> (r: u32)
    ensures
        r == limbs[0] + limbs[1] * 0x10000,
{
    proof { model::lemma_join16(limbs[0], limbs[1]); }
    (limbs[0] as u32) | ((limbs[1] as u32) << 16)
}

/// Splitting a word into limbs and composing them gives the word back.
pub proof fn law_limb16_compose_decompose(value: u32, low: u16, high: u16)
    ensures
        ({
            let limbs: [u16; 2] = [(value % 0x10000) as u16, (value / 0x10000) as u16];
            limbs[0] + limbs[1] * 0x10000 == value
        }),
        (low + high * 0x10000) % 0x10000 == low,
        (low + high * 0x10000) / 0x10000 == high,
{
}

/// The full 64-bit product of two words from the four 16-bit partial products.
pub fn limb16_mul_u64(lhs: u32, rhs: u32) -> (r: u64)
    ensures
        r == lhs * rhs,
{
    let limbs_a = decompose_u32_limb16(lhs);
    let limbs_b = decompose_u32_limb16(rhs);
    let (a0, a1) = (limbs_a[0], limbs_a[1]);
    let (b0, b1) = (limbs_b[0], limbs_b[1]);
    proof { model::lemma_limb_product(lhs, rhs); }

    let p00 = (a0 as u64) * (b0 as u64);
    let p01 = (a0 as u64) * (b1 as u64);
    let p10 = (a1 as u64) * (b0 as u64);
    let p11 = (a1 as u64) * (b1 as u64);
    proof {
        model::lemma_u64_shifts((p01 + p10) as u64);
        model::lemma_u64_shifts(p11);
    }
    p00 + ((p01 + p10) << 16) + (p11 << 32)
}

/// High word of the unsigned product (MULHU).
pub fn mulhu_u32_limb16(lhs: u32, rhs: u32) -> (r: u32)
    ensures
        r == (lhs * rhs) / 0x1_0000_0000,
{
    let p = limb16_mul_u64(lhs, rhs);
    proof { model::lemma_u64_shifts(p); }
    (p >> 32) as u32
}

/// High word of the signed product (MULH), as the bits of a word.
pub fn mulh_i32_limb16(lhs: i32, rhs: i32) -> (r: u32)
    ensures
        r == ((lhs * rhs) / 0x1_0000_0000) % 0x1_0000_0000,
{
    let lhs_u = lhs as u32;
    let rhs_u = rhs as u32;
    let unsigned_hi = mulhu_u32_limb16(lhs_u, rhs_u);
    proof {
        model::lemma_i32_as_u32(lhs);
        model::lemma_i32_as_u32(rhs);
    }
    let lhs_sign = ((lhs_u >> 31) & 1) as u64;
    let rhs_sign = ((rhs_u >> 31) & 1) as u64;
    assert(lhs_sign == 0 || lhs_sign == 1);
    assert(rhs_sign == 0 || rhs_sign == 1);
    assert(lhs_sign * (rhs_u as u64) <= rhs_u && rhs_sign * (lhs_u as u64) <= lhs_u);
    let correction = lhs_sign * (rhs_u as u64) + rhs_sign * (lhs_u as u64);
    proof {
        model::lemma_high_word_correction(
            lhs as int,
            rhs as int,
            lhs_u as int,
            rhs_u as int,
            lhs_sign as int,
            rhs_sign as int,
        );
        model::lemma_u64_shifts(correction);
        vstd::arithmetic::div_mod::lemma_sub_mod_noop_right(
            unsigned_hi as int,
            correction as int,
            0x1_0000_0000,
        );
    }
    unsigned_hi.wrapping_sub(correction as u32)
}

/// High word of the signed-by-unsigned product (MULHSU), as the bits of a word.
pub fn mulhsu_i32_u32_limb16(lhs: i32, rhs: u32) -> (r: u32)
    ensures
        r == ((lhs * rhs) / 0x1_0000_0000) % 0x1_0000_0000,
{
    let lhs_u = lhs as u32;
    let unsigned_hi = mulhu_u32_limb16(lhs_u, rhs);
    proof { model::lemma_i32_as_u32(lhs); }
    let lhs_sign = ((lhs_u >> 31) & 1) as u64;
    assert(lhs_sign == 0 || lhs_sign == 1);
    assert(lhs_sign * (rhs as u64) <= rhs);
    let correction = lhs_sign * (rhs as u64);
    proof {
        model::lemma_high_word_correction(lhs as int, rhs as int, lhs_u as int, rhs as int, lhs_sign as int, 0);
        model::lemma_u64_shifts(correction);
        vstd::arithmetic::div_mod::lemma_sub_mod_noop_right(
            unsigned_hi as int,
            correction as int,
            0x1_0000_0000,
        );
    }
    unsigned_hi.wrapping_sub(correction as u32)
}

} // verus!
