//! Bit-slice helpers over raw instruction words.
use vstd::prelude::*;
use crate::model;

verus! {

/// A sign-extended immediate.
pub type Immediate = i32;

/// A 5-bit register number.
pub type RegisterIndex = u8;

/// Bits `[start, start + width)` of `word`.
pub fn bit_slice(word: u32, start: u32, width: u32) -> (r: u32)
    requires
        start < 32,
        width < 32,
    ensures
        r == model::bits_of(word, start as nat, width as nat),
{
    proof { model::lemma_bit_slice(word, start, width); }
    (word >> start) & ((1u32 << width) - 1)
}

/// Bits `hi` down to `lo` of `word`, both inclusive.
pub fn bits(word: u32, hi: u32, lo: u32) -> (r: u32)
    requires
        lo <= hi < 32,
        hi - lo < 31,
    ensures
        r == model::bits_of(word, lo as nat, (hi - lo + 1) as nat),
{
    bit_slice(word, lo, hi - lo + 1)
}

pub fn opcode(word: u32) -> (r: u32)
    ensures
        r == model::opcode_of(word),
{
    proof { vstd::arithmetic::power2::lemma2_to64(); }
    bit_slice(word, 0, 7)
}

pub fn rd(word: u32) -> (r: RegisterIndex)
    ensures
        r == model::rd_of(word),
{
    proof { vstd::arithmetic::power2::lemma2_to64(); }
    bit_slice(word, 7, 5) as RegisterIndex
}

pub fn funct3(word: u32) -> (r: u32)
    ensures
        r == model::funct3_of(word),
{
    proof { vstd::arithmetic::power2::lemma2_to64(); }
    bit_slice(word, 12, 3)
}

pub fn rs1(word: u32) -> (r: RegisterIndex)
    ensures
        r == model::rs1_of(word),
{
    proof { vstd::arithmetic::power2::lemma2_to64(); }
    bit_slice(word, 15, 5) as RegisterIndex
}

pub fn rs2(word: u32) -> (r: RegisterIndex)
    ensures
        r == model::rs2_of(word),
{
    proof { vstd::arithmetic::power2::lemma2_to64(); }
    bit_slice(word, 20, 5) as RegisterIndex
}

pub fn shamt(word: u32) -> (r: u32)
    ensures
        r == model::rs2_of(word),
{
    proof { vstd::arithmetic::power2::lemma2_to64(); }
    bit_slice(word, 20, 5)
}

pub fn funct7(word: u32) -> (r: u32)
    ensures
        r == model::funct7_of(word),
{
    proof { vstd::arithmetic::power2::lemma2_to64(); }
    bit_slice(word, 25, 7)
}

/// Sign-extends the low `width` bits of `value`.
pub fn sign_extend(value: u32, width: u32) -> (r: Immediate)
    requires
        1 <= width <= 32,
    ensures
        r as int == model::sext(value as int, width as nat),
{
    let shift = 32 - width;
    proof { model::lemma_sign_extend_shift(value, width as nat); }
    ((value << shift) as i32) >> shift
}

pub fn imm_i(word: u32) -> (r: Immediate)
    ensures
        r == model::imm_i_of(word),
{
    proof { vstd::arithmetic::power2::lemma2_to64(); }
    sign_extend(bit_slice(word, 20, 12), 12)
}

pub fn imm_s(word: u32) -> (r: Immediate)
    ensures
        r == model::imm_s_of(word),
{
    proof { vstd::arithmetic::power2::lemma2_to64(); }
    let upper_field = bit_slice(word, 25, 7);
    let upper = upper_field << 5;
    let lower = bit_slice(word, 7, 5);
    proof { model::lemma_pack_fields(upper_field, lower, 0, 0); }
    sign_extend(upper | lower, 12)
}

pub fn imm_b(word: u32) -> (r: Immediate)
    ensures
        r == model::imm_b_of(word),
{
    proof { vstd::arithmetic::power2::lemma2_to64(); }
    let (f12, f11, f10_5, f4_1) = (
        bit_slice(word, 31, 1),
        bit_slice(word, 7, 1),
        bit_slice(word, 25, 6),
        bit_slice(word, 8, 4),
    );
    let bit12 = f12 << 12;
    let bit11 = f11 << 11;
    let bits10_5 = f10_5 << 5;
    let bits4_1 = f4_1 << 1;
    proof { model::lemma_pack_fields(f12, f11, f10_5, f4_1); }
    sign_extend(bit12 | bit11 | bits10_5 | bits4_1, 13)
}

/// U-type immediate as an unsigned word: the upper 20 bits, low 12 bits zero.
pub fn imm_u(word: u32) -> (r: u32)
    ensures
        r == word - word % 0x1000,
{
    proof { model::lemma_word_fields(word); }
    word & 0xfffff000
}

pub fn imm_j(word: u32) -> (r: Immediate)
    ensures
        r == model::imm_j_of(word),
{
    proof { vstd::arithmetic::power2::lemma2_to64(); }
    let (f20, f19_12, f11, f10_1) = (
        bit_slice(word, 31, 1),
        bit_slice(word, 12, 8),
        bit_slice(word, 20, 1),
        bit_slice(word, 21, 10),
    );
    let bit20 = f20 << 20;
    let bits19_12 = f19_12 << 12;
    let bit11 = f11 << 11;
    let bits10_1 = f10_1 << 1;
    proof { model::lemma_pack_fields(f20, f19_12, f11, f10_1); }
    sign_extend(bit20 | bits19_12 | bit11 | bits10_1, 21)
}

/// Low word of a 64-bit value.
pub fn low_u32(value: u64) -> (r: u32)
    ensures
        r == value % 0x1_0000_0000,
{
    proof { model::lemma_u64_shifts(value); }
    value as u32
}

/// High word of a 64-bit value.
pub fn high_u32(value: u64) -> (r: u32)
    ensures
        r == value / 0x1_0000_0000,
{
    proof { model::lemma_u64_shifts(value); }
    (value >> 32) as u32
}

/// The magnitude of a signed word.
pub fn magnitude(value: i32) -> (r: u32)
    ensures
        r == model::abs(value as int),
{
    proof { model::lemma_i32_as_u32(value); }
    if value < 0 {
        0u32.wrapping_sub(value as u32)
    } else {
        value as u32
    }
}

/// Signed division rounding toward zero.
pub fn div_trunc(lhs: i32, rhs: i32) -> (q: i32)
    requires
        rhs != 0,
        !(lhs == i32::MIN && rhs == -1),
    ensures
        q == model::trunc_div(lhs as int, rhs as int),
{
    let ua = magnitude(lhs);
    let ub = magnitude(rhs);
    let uq = ua / ub;
    assert(uq <= ua) by (nonlinear_arith)
        requires
            uq == ua / ub,
            ub >= 1,
    ;
    assert(ub == 1 ==> uq == ua) by (nonlinear_arith)
        requires
            uq == ua / ub,
    ;
    assert(ub >= 2 ==> uq * 2 <= ua) by (nonlinear_arith)
        requires
            uq == ua / ub,
            ub >= 1,
    ;
    assert(ua <= 0x8000_0000 && ub <= 0x8000_0000);
    assert(uq < 0x8000_0000 || ((lhs < 0) != (rhs < 0)));
    assert(uq == model::abs(lhs as int) / model::abs(rhs as int));
    proof {
        model::lemma_u32_as_i32(0u32.wrapping_sub(uq));
        model::lemma_u32_as_i32(uq);
    }
    if (lhs < 0) != (rhs < 0) {
        0u32.wrapping_sub(uq) as i32
    } else {
        uq as i32
    }
}

} // verus!
