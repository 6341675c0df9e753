//! Opcode and funct constants of RV32IM and the field and immediate
//! extractors used by the base decoder.
use vstd::prelude::*;
use crate::model;

verus! {

pub const OPCODE_LOAD: u8 = 0b0000011;
pub const OPCODE_MISC_MEM: u8 = 0b0001111;
pub const OPCODE_OP_IMM: u8 = 0b0010011;
pub const OPCODE_AUIPC: u8 = 0b0010111;
pub const OPCODE_STORE: u8 = 0b0100011;
pub const OPCODE_OP: u8 = 0b0110011;
pub const OPCODE_LUI: u8 = 0b0110111;
pub const OPCODE_BRANCH: u8 = 0b1100011;
pub const OPCODE_JALR: u8 = 0b1100111;
pub const OPCODE_JAL: u8 = 0b1101111;
pub const OPCODE_SYSTEM: u8 = 0b1110011;

pub const FUNCT7_BASE: u8 = 0b0000000;
pub const FUNCT7_ALT: u8 = 0b0100000;
/// funct7 of SUB and SRA/SRAI.
pub const FUNCT7_SUB_SRA: u8 = 0b0100000;
pub const FUNCT7_M: u8 = 0b0000001;

pub fn opcode(word: u32) -> (r: u8)
    ensures
        r == model::opcode_of(word),
{
    proof { model::lemma_word_fields(word); }
    (word & 0x7f) as u8
}

pub fn rd(word: u32) -> (r: u8)
    ensures
        r == model::rd_of(word),
{
    proof { model::lemma_word_fields(word); }
    ((word >> 7) & 0x1f) as u8
}

pub fn funct3(word: u32) -> (r: u8)
    ensures
        r == model::funct3_of(word),
{
    proof { model::lemma_word_fields(word); }
    ((word >> 12) & 0x07) as u8
}

pub fn rs1(word: u32) -> (r: u8)
    ensures
        r == model::rs1_of(word),
{
    proof { model::lemma_word_fields(word); }
    ((word >> 15) & 0x1f) as u8
}

pub fn rs2(word: u32) -> (r: u8)
    ensures
        r == model::rs2_of(word),
{
    proof { model::lemma_word_fields(word); }
    ((word >> 20) & 0x1f) as u8
}

pub fn funct7(word: u32) -> (r: u8)
    ensures
        r == model::funct7_of(word),
{
    proof { model::lemma_word_fields(word); }
    ((word >> 25) & 0x7f) as u8
}

/// Shift amount of SLLI/SRLI/SRAI: bits 24..20.
pub fn shamt(word: u32) -> (r: u8)
    ensures
        r == model::rs2_of(word),
{
    proof { model::lemma_word_fields(word); }
    ((word >> 20) & 0x1f) as u8
}

/// FENCE predecessor set: bits 27..24.
pub fn fence_pred(word: u32) -> (r: u8)
    ensures
        r == (word / 0x100_0000) % 0x10,
{
    proof { model::lemma_word_fields(word); }
    ((word >> 24) & 0x0f) as u8
}

/// FENCE successor set: bits 23..20.
pub fn fence_succ(word: u32) -> (r: u8)
    ensures
        r == (word / 0x10_0000) % 0x10,
{
    proof { model::lemma_word_fields(word); }
    ((word >> 20) & 0x0f) as u8
}

/// FENCE mode: bits 31..28.
pub fn fence_fm(word: u32) -> (r: u8)
    ensures
        r == word / 0x1000_0000,
{
    proof { model::lemma_word_fields(word); }
    ((word >> 28) & 0x0f) as u8
}

/// Sign-extends the low `bits` bits of `value`.
pub fn sign_extend(value: u32, bits: u8) -> (r: i32)
    requires
        1 <= bits <= 32,
    ensures
        r as int == model::sext(value as int, bits as nat),
{
    let shift = 32 - bits as u32;
    proof { model::lemma_sign_extend_shift(value, bits as nat); }
    ((value << shift) as i32) >> shift
}

proof fn lemma_encoding_immediates(w: u32)
    by (bit_vector)
    ensures
        ((w >> 25u32) << 5u32) | ((w >> 7u32) & 0x1f)
            == (w / 0x2000000) * 0x20 + (w / 0x80) % 0x20,
        (((w >> 31u32) & 0x1) << 12u32) | (((w >> 7u32) & 0x1) << 11u32)
            | (((w >> 25u32) & 0x3f) << 5u32) | (((w >> 8u32) & 0x0f) << 1u32)
            == (w / 0x8000_0000) * 0x1000 + ((w / 0x80) % 2) * 0x800
                + ((w / 0x200_0000) % 0x40) * 0x20 + ((w / 0x100) % 0x10) * 2,
        (((w >> 31u32) & 0x1) << 20u32) | (((w >> 12u32) & 0xff) << 12u32)
            | (((w >> 20u32) & 0x1) << 11u32) | (((w >> 21u32) & 0x03ff) << 1u32)
            == (w / 0x8000_0000) * 0x10_0000 + ((w / 0x1000) % 0x100) * 0x1000
                + ((w / 0x10_0000) % 2) * 0x800 + ((w / 0x20_0000) % 0x400) * 2,
{
}

pub fn imm_i(word: u32) -> (r: i32)
    ensures
        r == model::imm_i_of(word),
{
    proof { model::lemma_word_fields(word); vstd::arithmetic::power2::lemma2_to64(); }
    sign_extend(word >> 20, 12)
}

pub fn imm_s(word: u32) -> (r: i32)
    ensures
        r == model::imm_s_of(word),
{
    let value = ((word >> 25) << 5) | ((word >> 7) & 0x1f);
    proof { lemma_encoding_immediates(word); vstd::arithmetic::power2::lemma2_to64(); }
    sign_extend(value, 12)
}

pub fn imm_b(word: u32) -> (r: i32)
    ensures
        r == model::imm_b_of(word),
{
    let value = (((word >> 31) & 0x1) << 12)
        | (((word >> 7) & 0x1) << 11)
        | (((word >> 25) & 0x3f) << 5)
        | (((word >> 8) & 0x0f) << 1);
    proof { lemma_encoding_immediates(word); vstd::arithmetic::power2::lemma2_to64(); }
    sign_extend(value, 13)
}

pub fn imm_u(word: u32) -> (r: i32)
    ensures
        r == model::imm_u_of(word),
{
    proof { model::lemma_word_fields(word); model::lemma_u32_as_i32(word & 0xfffff000); }
    (word & 0xfffff000) as i32
}

pub fn imm_j(word: u32) -> (r: i32)
    ensures
        r == model::imm_j_of(word),
{
    let value = (((word >> 31) & 0x1) << 20)
        | (((word >> 12) & 0xff) << 12)
        | (((word >> 20) & 0x1) << 11)
        | (((word >> 21) & 0x03ff) << 1);
    proof { lemma_encoding_immediates(word); vstd::arithmetic::power2::lemma2_to64(); }
    sign_extend(value, 21)
}

} // verus!
