//! Instruction formats R, I, S, B, U and J with typed register fields.
use vstd::prelude::*;
use crate::decoder::sign_ext::sign_extend;
use crate::error::DecodeError;
use crate::model;
use crate::register::Register;
use crate::util::bits;

verus! {

#[derive(Debug, Clone, Copy, PartialEq, Eq)]
pub struct RType {
    pub rd: Register,
    pub rs1: Register,
    pub rs2: Register,
    pub funct3: u8,
    pub funct7: u8,
}

#[derive(Debug, Clone, Copy, PartialEq, Eq)]
pub struct IType {
    pub rd: Register,
    pub rs1: Register,
    pub funct3: u8,
    pub imm: i32,
}

#[derive(Debug, Clone, Copy, PartialEq, Eq)]
pub struct SType {
    pub rs1: Register,
    pub rs2: Register,
    pub funct3: u8,
    pub imm: i32,
}

#[derive(Debug, Clone, Copy, PartialEq, Eq)]
pub struct BType {
    pub rs1: Register,
    pub rs2: Register,
    pub funct3: u8,
    pub imm: i32,
}

#[derive(Debug, Clone, Copy, PartialEq, Eq)]
pub struct UType {
    pub rd: Register,
    pub imm: i32,
}

#[derive(Debug, Clone, Copy, PartialEq, Eq)]
pub struct JType {
    pub rd: Register,
    pub imm: i32,
}

/// `t` holds the R-type fields of `word`.
pub open spec fn is_r_type_of(t: RType, word: u32) -> bool {
    &&& t.rd.id() == model::rd_of(word)
    &&& t.rs1.id() == model::rs1_of(word)
    &&& t.rs2.id() == model::rs2_of(word)
    &&& t.funct3 == model::funct3_of(word)
    &&& t.funct7 == model::funct7_of(word)
}

/// `t` holds the I-type fields of `word`.
pub open spec fn is_i_type_of(t: IType, word: u32) -> bool {
    &&& t.rd.id() == model::rd_of(word)
    &&& t.rs1.id() == model::rs1_of(word)
    &&& t.funct3 == model::funct3_of(word)
    &&& t.imm == model::imm_i_of(word)
}

/// `t` holds the S-type fields of `word`.
pub open spec fn is_s_type_of(t: SType, word: u32) -> bool {
    &&& t.rs1.id() == model::rs1_of(word)
    &&& t.rs2.id() == model::rs2_of(word)
    &&& t.funct3 == model::funct3_of(word)
    &&& t.imm == model::imm_s_of(word)
}

/// `t` holds the B-type fields of `word`.
pub open spec fn is_b_type_of(t: BType, word: u32) -> bool {
    &&& t.rs1.id() == model::rs1_of(word)
    &&& t.rs2.id() == model::rs2_of(word)
    &&& t.funct3 == model::funct3_of(word)
    &&& t.imm == model::imm_b_of(word)
}

/// `t` holds the U-type fields of `word`.
pub open spec fn is_u_type_of(t: UType, word: u32) -> bool {
    &&& t.rd.id() == model::rd_of(word)
    &&& t.imm == model::imm_u_of(word)
}

/// `t` holds the J-type fields of `word`.
pub open spec fn is_j_type_of(t: JType, word: u32) -> bool {
    &&& t.rd.id() == model::rd_of(word)
    &&& t.imm == model::imm_j_of(word)
}

pub fn opcode(word: u32) -> (r: u8)
    ensures
        r == model::opcode_of(word),
{
    proof { vstd::arithmetic::power2::lemma2_to64(); model::lemma_immediate_slices(word); }
    bits(word, 6, 0) as u8
}

pub fn rd(word: u32) -> (r: u8)
    ensures
        r == model::rd_of(word),
{
    proof { vstd::arithmetic::power2::lemma2_to64(); model::lemma_immediate_slices(word); }
    bits(word, 11, 7) as u8
}

pub fn funct3(word: u32) -> (r: u8)
    ensures
        r == model::funct3_of(word),
{
    proof { vstd::arithmetic::power2::lemma2_to64(); model::lemma_immediate_slices(word); }
    bits(word, 14, 12) as u8
}

pub fn rs1(word: u32) -> (r: u8)
    ensures
        r == model::rs1_of(word),
{
    proof { vstd::arithmetic::power2::lemma2_to64(); model::lemma_immediate_slices(word); }
    bits(word, 19, 15) as u8
}

pub fn rs2(word: u32) -> (r: u8)
    ensures
        r == model::rs2_of(word),
{
    proof { vstd::arithmetic::power2::lemma2_to64(); model::lemma_immediate_slices(word); }
    bits(word, 24, 20) as u8
}

pub fn funct7(word: u32) -> (r: u8)
    ensures
        r == model::funct7_of(word),
{
    proof { vstd::arithmetic::power2::lemma2_to64(); model::lemma_immediate_slices(word); }
    bits(word, 31, 25) as u8
}

/// A register field; never fails, as a 5-bit field names one of the 32 registers.
fn register_field(index: u8) -> (r: Result<Register, DecodeError>)
    requires
        index < 32,
    ensures
        r matches Ok(reg) && reg.id() == index,
{
    Register::new(index)
}

pub fn decode_r_type(word: u32) -> (r: Result<RType, DecodeError>)
    ensures
        r matches Ok(t) && is_r_type_of(t, word),
{
    let rd = match register_field(rd(word)) { Ok(reg) => reg, Err(e) => return Err(e) };
    let rs1 = match register_field(rs1(word)) { Ok(reg) => reg, Err(e) => return Err(e) };
    let rs2 = match register_field(rs2(word)) { Ok(reg) => reg, Err(e) => return Err(e) };
    Ok(RType { rd, rs1, rs2, funct3: funct3(word), funct7: funct7(word) })
}

pub fn decode_i_type(word: u32) -> (r: Result<IType, DecodeError>)
    ensures
        r matches Ok(t) && is_i_type_of(t, word),
{
    let rd = match register_field(rd(word)) { Ok(reg) => reg, Err(e) => return Err(e) };
    let rs1 = match register_field(rs1(word)) { Ok(reg) => reg, Err(e) => return Err(e) };
    proof { vstd::arithmetic::power2::lemma2_to64(); model::lemma_immediate_slices(word); }
    Ok(IType { rd, rs1, funct3: funct3(word), imm: sign_extend(bits(word, 31, 20), 12) })
}

pub fn decode_s_type(word: u32) -> (r: Result<SType, DecodeError>)
    ensures
        r matches Ok(t) && is_s_type_of(t, word),
{
    proof { vstd::arithmetic::power2::lemma2_to64(); model::lemma_immediate_slices(word); }
    let hi = bits(word, 31, 25);
    let lo = bits(word, 11, 7);
    proof { model::lemma_pack_fields(hi, lo, 0, 0); }
    let imm = (hi << 5) | lo;
    let rs1 = match register_field(rs1(word)) { Ok(reg) => reg, Err(e) => return Err(e) };
    let rs2 = match register_field(rs2(word)) { Ok(reg) => reg, Err(e) => return Err(e) };
    Ok(SType { rs1, rs2, funct3: funct3(word), imm: sign_extend(imm, 12) })
}

pub fn decode_b_type(word: u32) -> (r: Result<BType, DecodeError>)
    ensures
        r matches Ok(t) && is_b_type_of(t, word),
{
    proof { vstd::arithmetic::power2::lemma2_to64(); model::lemma_immediate_slices(word); }
    let (f12, f11, f10_5, f4_1) = (bits(word, 31, 31), bits(word, 7, 7), bits(word, 30, 25), bits(word, 11, 8));
    proof { model::lemma_pack_fields(f12, f11, f10_5, f4_1); }
    let imm = (f12 << 12) | (f11 << 11) | (f10_5 << 5) | (f4_1 << 1);
    let rs1 = match register_field(rs1(word)) { Ok(reg) => reg, Err(e) => return Err(e) };
    let rs2 = match register_field(rs2(word)) { Ok(reg) => reg, Err(e) => return Err(e) };
    Ok(BType { rs1, rs2, funct3: funct3(word), imm: sign_extend(imm, 13) })
}

pub fn decode_u_type(word: u32) -> (r: Result<UType, DecodeError>)
    ensures
        r matches Ok(t) && is_u_type_of(t, word),
{
    let rd = match register_field(rd(word)) { Ok(reg) => reg, Err(e) => return Err(e) };
    proof { model::lemma_word_fields(word); model::lemma_u32_as_i32(word & 0xfffff000); }
    Ok(UType { rd, imm: (word & 0xfffff000) as i32 })
}

pub fn decode_j_type(word: u32) -> (r: Result<JType, DecodeError>)
    ensures
        r matches Ok(t) && is_j_type_of(t, word),
{
    proof { vstd::arithmetic::power2::lemma2_to64(); model::lemma_immediate_slices(word); }
    let (f20, f19_12, f11, f10_1) = (bits(word, 31, 31), bits(word, 19, 12), bits(word, 20, 20), bits(word, 30, 21));
    proof { model::lemma_pack_fields(f20, f19_12, f11, f10_1); }
    let imm = (f20 << 20) | (f19_12 << 12) | (f11 << 11) | (f10_1 << 1);
    let rd = match register_field(rd(word)) { Ok(reg) => reg, Err(e) => return Err(e) };
    Ok(JType { rd, imm: sign_extend(imm, 21) })
}

} // verus!
