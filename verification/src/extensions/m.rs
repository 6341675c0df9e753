//! RV32M decoding to flat variants, and the arithmetic of each operation on
//! the bit patterns of the operand registers.
use vstd::prelude::*;
use crate::encoding::{funct3, funct7, opcode, rd, rs1, rs2};
use crate::error::ZkvmError;
use crate::extensions::Instruction;
use crate::model;
use crate::util::div_trunc;

verus! {

/// What the RV32M decoder makes of `word`.
pub open spec fn m_decode_of(word: u32) -> Result<Instruction, ZkvmError> {
    let opcode = model::opcode_of(word);
    let funct3 = model::funct3_of(word);
    let (rd, rs1, rs2) = (model::rd_of(word), model::rs1_of(word), model::rs2_of(word));
    if opcode != 0x33 {
        Err(ZkvmError::InvalidOpcode { opcode, word })
    } else if model::funct7_of(word) != 1 {
        Err(ZkvmError::InvalidFunct7 { opcode, funct3, funct7: model::funct7_of(word), word })
    } else {
        Ok(m_instruction_of(funct3, rd, rs1, rs2))
    }
}

/// The M-extension operation selected by `funct3`, on the given registers.
pub open spec fn m_instruction_of(funct3: u8, rd: u8, rs1: u8, rs2: u8) -> Instruction {
    if funct3 == 0 {
        Instruction::Mul { rd, rs1, rs2 }
    } else if funct3 == 1 {
        Instruction::Mulh { rd, rs1, rs2 }
    } else if funct3 == 2 {
        Instruction::Mulhsu { rd, rs1, rs2 }
    } else if funct3 == 3 {
        Instruction::Mulhu { rd, rs1, rs2 }
    } else if funct3 == 4 {
        Instruction::Div { rd, rs1, rs2 }
    } else if funct3 == 5 {
        Instruction::Divu { rd, rs1, rs2 }
    } else if funct3 == 6 {
        Instruction::Rem { rd, rs1, rs2 }
    } else {
        Instruction::Remu { rd, rs1, rs2 }
    }
}

/// Decodes an RV32M word.
pub fn decode(word: u32) -> (r: Result<Instruction, ZkvmError>)
    ensures
        r == m_decode_of(word),
{
    if opcode(word) != 0x33 {
        return Err(ZkvmError::InvalidOpcode { opcode: opcode(word), word });
    }
    if funct7(word) != 0x01 {
        return Err(ZkvmError::InvalidFunct7 {
            opcode: opcode(word),
            funct3: funct3(word),
            funct7: funct7(word),
            word,
        });
    }
    let rd = rd(word);
    let rs1 = rs1(word);
    let rs2 = rs2(word);
    match funct3(word) {
        0x0 => Ok(Instruction::Mul { rd, rs1, rs2 }),
        0x1 => Ok(Instruction::Mulh { rd, rs1, rs2 }),
        0x2 => Ok(Instruction::Mulhsu { rd, rs1, rs2 }),
        0x3 => Ok(Instruction::Mulhu { rd, rs1, rs2 }),
        0x4 => Ok(Instruction::Div { rd, rs1, rs2 }),
        0x5 => Ok(Instruction::Divu { rd, rs1, rs2 }),
        0x6 => Ok(Instruction::Rem { rd, rs1, rs2 }),
        0x7 => Ok(Instruction::Remu { rd, rs1, rs2 }),
        f3 => Err(ZkvmError::InvalidFunct3 { opcode: opcode(word), funct3: f3, word }),
    }
}

proof fn lemma_u64_limbs(a: u64)
    by (bit_vector)
    requires
        a < 0x1_0000_0000,
    ensures
        a & 0xFFFF == a % 0x10000,
        a >> 16u64 == a / 0x10000,
{
}

/// MUL: the low word of the product, computed from 16-bit limbs.
pub fn mul(a: u32, b: u32) -> (r: u32)
    ensures
        r == (a * b) % 0x1_0000_0000,
{
    let a = a as u64;
    let b = b as u64;
    let a0 = a & 0xFFFF;
    let a1 = a >> 16;
    let b0 = b & 0xFFFF;
    let b1 = b >> 16;
    proof {
        lemma_u64_limbs(a);
        lemma_u64_limbs(b);
        model::lemma_limb_product(a as u32, b as u32);
    }
    let p00 = a0 * b0;
    let p01 = a0 * b1;
    let p10 = a1 * b0;
    let p11 = a1 * b1;
    proof {
        model::lemma_u64_shifts((p01 + p10) as u64);
        model::lemma_u64_shifts(p11);
    }
    let res = p00 + ((p01 + p10) << 16) + (p11 << 32);
    proof { model::lemma_u64_shifts(res); }
    res as u32
}

/// MULH: the high word of the signed product.
pub fn mulh(a: u32, b: u32) -> (r: u32)
    ensures
        r == ((model::signed32(a) * model::signed32(b)) / 0x1_0000_0000) % 0x1_0000_0000,
{
    proof {
        model::lemma_u32_as_i32(a);
        model::lemma_u32_as_i32(b);
        model::lemma_signed_product_bounds(model::signed32(a), model::signed32(b));
    }
    let lhs = a as i32 as i64;
    let rhs = b as i32 as i64;
    let product = lhs * rhs;
    proof {
        model::lemma_i64_shr32(product);
        model::lemma_i64_as_u32(product >> 32);
    }
    (product >> 32) as u32
}

/// MULHSU: the high word of the product of a signed and an unsigned word.
pub fn mulhsu(a: u32, b: u32) -> (r: u32)
    ensures
        r == ((model::signed32(a) * b) / 0x1_0000_0000) % 0x1_0000_0000,
{
    proof {
        model::lemma_u32_as_i32(a);
        model::lemma_signed_unsigned_product_bounds(model::signed32(a), b as int);
    }
    let lhs = a as i32 as i64;
    let rhs = b as i64;
    let product = lhs * rhs;
    proof {
        model::lemma_i64_shr32(product);
        model::lemma_i64_as_u32(product >> 32);
    }
    (product >> 32) as u32
}

/// MULHU: the high word of the unsigned product.
pub fn mulhu(a: u32, b: u32) -> (r: u32)
    ensures
        r == (a * b) / 0x1_0000_0000,
{
    proof { model::lemma_limb_product(a, b); }
    let product = (a as u64) * (b as u64);
    proof { model::lemma_u64_shifts(product); }
    (product >> 32) as u32
}

/// DIV on the bit patterns of two words.
pub fn div(a: u32, b: u32) -> (r: u32)
    ensures
        r == model::as_word(model::div_signed_of(a as i32, b as i32)),
{
    let lhs = a as i32;
    let rhs = b as i32;
    proof { model::lemma_i32_as_u32(lhs); }
    if rhs == 0 {
        u32::MAX
    } else if lhs == i32::MIN && rhs == -1 {
        lhs as u32
    } else {
        let q = div_trunc(lhs, rhs);
        proof { model::lemma_i32_as_u32(q); }
        q as u32
    }
}

/// DIVU.
pub fn divu(a: u32, b: u32) -> (r: u32)
    ensures
        r == model::div_unsigned_of(a, b),
{
    if b == 0 {
        u32::MAX
    } else {
        a / b
    }
}

/// REM on the bit patterns of two words.
pub fn rem(a: u32, b: u32) -> (r: u32)
    ensures
        r == model::as_word(model::rem_signed_of(a as i32, b as i32)),
{
    let lhs = a as i32;
    let rhs = b as i32;
    proof { model::lemma_i32_as_u32(lhs); model::lemma_u32_as_i32(a); }
    if rhs == 0 {
        a
    } else if lhs == i32::MIN && rhs == -1 {
        0
    } else {
        proof { model::lemma_trunc_rem(lhs as int, rhs as int); }
        let m = lhs % rhs;
        proof { model::lemma_i32_as_u32(m); }
        m as u32
    }
}

/// REMU.
pub fn remu(a: u32, b: u32) -> (r: u32)
    ensures
        r == model::rem_unsigned_of(a, b),
{
    if b == 0 {
        a
    } else {
        a % b
    }
}

/// DIV and REM agree: for a nonzero divisor, outside the one overflowing
/// case, quotient times divisor plus remainder is the dividend, the remainder
/// is smaller than the divisor in magnitude and has the dividend's sign, and
/// the quotient fits in 32 bits.
pub proof fn law_signed_division_identity(a: i32, b: i32)
    requires
        b != 0,
        !(a == i32::MIN && b == -1),
    ensures
        model::div_signed_of(a, b) * b + model::rem_signed_of(a, b) == a,
        model::abs(model::rem_signed_of(a, b)) < model::abs(b as int),
        model::rem_signed_of(a, b) == 0 || (model::rem_signed_of(a, b) < 0) == (a < 0),
        i32::MIN <= model::div_signed_of(a, b) <= i32::MAX,
{
    model::lemma_trunc_rem(a as int, b as int);
    let (x, c) = (model::abs(a as int), model::abs(b as int));
    assert(x / c <= x) by (nonlinear_arith)
        requires
            x >= 0,
            c >= 1,
    ;
    assert(c >= 2 ==> (x / c) * 2 <= x) by (nonlinear_arith)
        requires
            x >= 0,
            c >= 1,
    ;
}

/// DIVU and REMU agree: for a nonzero divisor, quotient times divisor plus
/// remainder is the dividend and the remainder is below the divisor.
pub proof fn law_unsigned_division_identity(a: u32, b: u32)
    requires
        b != 0,
    ensures
        model::div_unsigned_of(a, b) * b + model::rem_unsigned_of(a, b) == a,
        0 <= model::rem_unsigned_of(a, b) < b,
{
    vstd::arithmetic::div_mod::lemma_fundamental_div_mod(a as int, b as int);
    assert(b * (a / b) == (a / b) * b) by (nonlinear_arith);
}

/// Division by zero sets every bit of the quotient and leaves the dividend as
/// the remainder; the overflowing signed division yields the dividend and a
/// zero remainder.
pub proof fn law_division_edge_cases(a: i32, u: u32)
    ensures
        model::as_word(model::div_signed_of(a, 0)) == u32::MAX,
        model::rem_signed_of(a, 0) == a,
        model::div_unsigned_of(u, 0) == u32::MAX,
        model::rem_unsigned_of(u, 0) == u,
        model::div_signed_of(i32::MIN, -1i32) == i32::MIN,
        model::rem_signed_of(i32::MIN, -1i32) == 0,
{
}

/// MULHU and MUL are the high and low words of the full product.
pub proof fn law_unsigned_product_words(a: u32, b: u32)
    ensures
        ((a * b) / 0x1_0000_0000) * 0x1_0000_0000 + (a * b) % 0x1_0000_0000 == a * b,
        0 <= (a * b) / 0x1_0000_0000 < 0x1_0000_0000,
{
    model::lemma_limb_product(a, b);
    vstd::arithmetic::div_mod::lemma_fundamental_div_mod((a * b) as int, 0x1_0000_0000);
    vstd::arithmetic::div_mod::lemma_div_pos_is_pos((a * b) as int, 0x1_0000_0000);
    vstd::arithmetic::div_mod::lemma_div_is_ordered((a * b) as int, 0xffff_fffe_0000_0001int, 0x1_0000_0000);
}

/// MUL computes the low word of the signed product as well: the product of
/// the bit patterns and the product of the signed values agree modulo 2^32,
/// so MULH followed by MUL is the 64-bit signed product.
pub proof fn law_signed_product_low_word(a: u32, b: u32)
    ensures
        (a * b) % 0x1_0000_0000 == (model::signed32(a) * model::signed32(b)) % 0x1_0000_0000,
        (((model::signed32(a) * model::signed32(b)) / 0x1_0000_0000) % 0x1_0000_0000) * 0x1_0000_0000
            + (a * b) % 0x1_0000_0000 == (model::signed32(a) * model::signed32(b))
            % 0x1_0000_0000_0000_0000,
{
    let (sa, sb) = (model::signed32(a), model::signed32(b));
    let m: int = 0x1_0000_0000;
    assert(sa % m == (a as int) % m) by {
        if a >= 0x8000_0000 {
            vstd::arithmetic::div_mod::lemma_mod_sub_multiples_vanish(a as int, m);
        }
    }
    assert(sb % m == (b as int) % m) by {
        if b >= 0x8000_0000 {
            vstd::arithmetic::div_mod::lemma_mod_sub_multiples_vanish(b as int, m);
        }
    }
    vstd::arithmetic::div_mod::lemma_mul_mod_noop(sa, sb, m);
    vstd::arithmetic::div_mod::lemma_mul_mod_noop(a as int, b as int, m);
    let p = sa * sb;
    let q = p / m;
    vstd::arithmetic::div_mod::lemma_fundamental_div_mod(p, m);
    vstd::arithmetic::div_mod::lemma_fundamental_div_mod(q, m);
    vstd::arithmetic::div_mod::lemma_mod_bound(p, m);
    vstd::arithmetic::div_mod::lemma_mod_bound(q, m);
    let (q1, q0, r) = (q / m, q % m, p % m);
    assert(p == q1 * (m * m) + (q0 * m + r)) by (nonlinear_arith)
        requires
            p == m * q + r,
            q == m * q1 + q0,
    ;
    assert(0 <= q0 * m + r < m * m) by (nonlinear_arith)
        requires
            0 <= q0 < m,
            0 <= r < m,
            m == 0x1_0000_0000,
    ;
    vstd::arithmetic::div_mod::lemma_fundamental_div_mod_converse(p, m * m, q1, q0 * m + r);
}

} // verus!
