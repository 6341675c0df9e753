//! Field and immediate extractors over raw instruction words.
use vstd::prelude::*;
use crate::model;

verus! {

pub fn opcode(word: u32) -> (r: u8)
    ensures
        r == model::opcode_of(word),
{
    proof { model::lemma_word_fields(word); }
    (word & 0x7f) as u8
}

pub fn rd(word: u32) -> (r: u8)
    ensures
        r == model::rd_of(word),
{
    proof { model::lemma_word_fields(word); }
    ((word >> 7) & 0x1f) as u8
}

pub fn funct3(word: u32) -> (r: u8)
    ensures
        r == model::funct3_of(word),
{
    proof { model::lemma_word_fields(word); }
    ((word >> 12) & 0x07) as u8
}

pub fn rs1(word: u32) -> (r: u8)
    ensures
        r == model::rs1_of(word),
{
    proof { model::lemma_word_fields(word); }
    ((word >> 15) & 0x1f) as u8
}

pub fn rs2(word: u32) -> (r: u8)
    ensures
        r == model::rs2_of(word),
{
    proof { model::lemma_word_fields(word); }
    ((word >> 20) & 0x1f) as u8
}

pub fn funct7(word: u32) -> (r: u8)
    ensures
        r == model::funct7_of(word),
{
    proof { model::lemma_word_fields(word); }
    ((word >> 25) & 0x7f) as u8
}

pub fn shamt(word: u32) -> (r: u8)
    ensures
        r == model::rs2_of(word),
{
    proof { model::lemma_word_fields(word); }
    ((word >> 20) & 0x1f) as u8
}

/// Sign-extends the low `bits` bits of `value`.
pub fn sign_extend(value: u32, bits: u8) -> (r: i32)
    requires
        1 <= bits <= 32,
    ensures
        r as int == model::sext(value as int, bits as nat),
{
    let shift = 32 - bits;
    proof { model::lemma_sign_extend_shift(value, bits as nat); }
    ((value << shift) as i32) >> shift
}

pub fn imm_i(word: u32) -> (r: i32)
    ensures
        r == model::imm_i_of(word),
{
    proof { model::lemma_word_fields(word); vstd::arithmetic::power2::lemma2_to64(); }
    sign_extend(word >> 20, 12)
}

pub fn imm_u(word: u32) -> (r: i32)
    ensures
        r == model::imm_u_of(word),
{
    proof { model::lemma_word_fields(word); model::lemma_u32_as_i32(word & 0xffff_f000); }
    (word & 0xffff_f000) as i32
}

pub fn imm_s(word: u32) -> (r: i32)
    ensures
        r == model::imm_s_of(word),
{
    let low = (word >> 7) & 0x1f;
    let high = (word >> 25) & 0x7f;
    proof {
        model::lemma_immediate_fields(word);
        model::lemma_pack_fields(high, low, 0, 0);
        vstd::arithmetic::power2::lemma2_to64();
    }
    sign_extend((high << 5) | low, 12)
}

pub fn imm_b(word: u32) -> (r: i32)
    ensures
        r == model::imm_b_of(word),
{
    let f11 = (word >> 7) & 0x1;
    let f4_1 = (word >> 8) & 0x0f;
    let f10_5 = (word >> 25) & 0x3f;
    let f12 = (word >> 31) & 0x1;
    let bit11 = f11 << 11;
    let bits4_1 = f4_1 << 1;
    let bits10_5 = f10_5 << 5;
    let bit12 = f12 << 12;
    proof {
        model::lemma_immediate_fields(word);
        model::lemma_pack_fields(f12, f11, f10_5, f4_1);
        vstd::arithmetic::power2::lemma2_to64();
    }
    sign_extend(bit12 | bit11 | bits10_5 | bits4_1, 13)
}

pub fn imm_j(word: u32) -> (r: i32)
    ensures
        r == model::imm_j_of(word),
{
    let f19_12 = (word >> 12) & 0xff;
    let f11 = (word >> 20) & 0x1;
    let f10_1 = (word >> 21) & 0x03ff;
    let f20 = (word >> 31) & 0x1;
    let bits19_12 = f19_12 << 12;
    let bit11 = f11 << 11;
    let bits10_1 = f10_1 << 1;
    let bit20 = f20 << 20;
    proof {
        model::lemma_immediate_fields(word);
        model::lemma_pack_fields(f20, f19_12, f11, f10_1);
        vstd::arithmetic::power2::lemma2_to64();
    }
    sign_extend(bit20 | bits19_12 | bit11 | bits10_1, 21)
}

/// CSR address: bits 31..20.
pub fn csr(word: u32) -> (r: u16)
    ensures
        r == model::upper12_of(word),
{
    proof { model::lemma_word_fields(word); }
    ((word >> 20) & 0x0fff) as u16
}

/// Immediate of CSR*I instructions: the rs1 field.
pub fn zimm(word: u32) -> (r: u8)
    ensures
        r == model::rs1_of(word),
{
    rs1(word)
}

} // verus!
