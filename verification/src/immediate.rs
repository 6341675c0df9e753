//! Immediates of each instruction format, computed from the whole word.
use vstd::prelude::*;
use crate::model;

verus! {

/// Sign-extends the low `width` bits of `value`; a width of 0 gives 0.
pub fn sign_extend(value: u32, width: u8) -> (r: i32)
    requires
        width <= 32,
    ensures
        width == 0 ==> r == 0,
        width >= 1 ==> r as int == model::sext(value as int, width as nat),
{
    if width == 0 {
        0
    } else {
        let shift = 32 - width as u32;
        proof { model::lemma_sign_extend_shift(value, width as nat); }
        ((value << shift) as i32) >> shift
    }
}

pub fn i_type(word: u32) -> (r: i32)
    ensures
        r == model::imm_i_of(word),
{
    proof { model::lemma_word_fields(word); vstd::arithmetic::power2::lemma2_to64(); }
    sign_extend(word >> 20, 12)
}

pub fn s_type(word: u32) -> (r: i32)
    ensures
        r == model::imm_s_of(word),
{
    let imm = ((word >> 25) << 5) | ((word >> 7) & 0x1f);
    proof {
        model::lemma_word_fields(word);
        model::lemma_pack_fields(word >> 25, (word >> 7) & 0x1f, 0, 0);
        vstd::arithmetic::power2::lemma2_to64();
    }
    sign_extend(imm, 12)
}

pub fn b_type(word: u32) -> (r: i32)
    ensures
        r == model::imm_b_of(word),
{
    let (f12, f11, f10_5, f4_1) = (
        (word >> 31) & 0x1,
        (word >> 7) & 0x1,
        (word >> 25) & 0x3f,
        (word >> 8) & 0x0f,
    );
    proof {
        model::lemma_immediate_fields(word);
        model::lemma_pack_fields(f12, f11, f10_5, f4_1);
        vstd::arithmetic::power2::lemma2_to64();
    }
    let imm = (f12 << 12) | (f11 << 11) | (f10_5 << 5) | (f4_1 << 1);
    sign_extend(imm, 13)
}

/// The U-immediate: the upper 20 bits in place, the low 12 bits clear.
pub fn u_type(word: u32) -> (r: u32)
    ensures
        r == word - word % 0x1000,
{
    proof { model::lemma_word_fields(word); }
    word & 0xfffff000
}

pub fn j_type(word: u32) -> (r: i32)
    ensures
        r == model::imm_j_of(word),
{
    let (f20, f19_12, f11, f10_1) = (
        (word >> 31) & 0x1,
        (word >> 12) & 0xff,
        (word >> 20) & 0x1,
        (word >> 21) & 0x03ff,
    );
    proof {
        model::lemma_immediate_fields(word);
        model::lemma_pack_fields(f20, f19_12, f11, f10_1);
        vstd::arithmetic::power2::lemma2_to64();
    }
    let imm = (f20 << 20) | (f19_12 << 12) | (f11 << 11) | (f10_1 << 1);
    sign_extend(imm, 21)
}

pub fn shamt(word: u32) -> (r: u8)
    ensures
        r == model::rs2_of(word),
{
    proof { model::lemma_word_fields(word); }
    ((word >> 20) & 0x1f) as u8
}

pub fn csr(word: u32) -> (r: u16)
    ensures
        r == model::upper12_of(word),
{
    proof { model::lemma_word_fields(word); }
    ((word >> 20) & 0x0fff) as u16
}

pub fn zimm(word: u32) -> (r: u8)
    ensures
        r == model::rs1_of(word),
{
    proof { model::lemma_word_fields(word); }
    ((word >> 15) & 0x1f) as u8
}

} // verus!
