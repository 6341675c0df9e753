//! Instruction formats with raw 5-bit register numbers, each decoded
//! straight from a word.
use vstd::prelude::*;
use crate::encoding;
use crate::model;

verus! {

#[derive(Debug, Clone, Copy, PartialEq, Eq)]
pub struct RType {
    pub rd: u8,
    pub rs1: u8,
    pub rs2: u8,
}

#[derive(Debug, Clone, Copy, PartialEq, Eq)]
pub struct IType {
    pub rd: u8,
    pub rs1: u8,
    pub imm: i32,
}

/// An I-type word whose immediate is a 5-bit shift amount.
#[derive(Debug, Clone, Copy, PartialEq, Eq)]
pub struct ShiftIType {
    pub rd: u8,
    pub rs1: u8,
    pub shamt: u32,
}

#[derive(Debug, Clone, Copy, PartialEq, Eq)]
pub struct SType {
    pub rs1: u8,
    pub rs2: u8,
    pub imm: i32,
}

#[derive(Debug, Clone, Copy, PartialEq, Eq)]
pub struct BType {
    pub rs1: u8,
    pub rs2: u8,
    pub imm: i32,
}

#[derive(Debug, Clone, Copy, PartialEq, Eq)]
pub struct UType {
    pub rd: u8,
    pub imm: i32,
}

#[derive(Debug, Clone, Copy, PartialEq, Eq)]
pub struct JType {
    pub rd: u8,
    pub imm: i32,
}

pub fn opcode(w: u32) -> (r: u8)
    ensures
        r == model::opcode_of(w),
{
    proof { model::lemma_word_fields(w); }
    (w & 0x7f) as u8
}

pub fn rd(w: u32) -> (r: u8)
    ensures
        r == model::rd_of(w),
{
    proof { model::lemma_word_fields(w); }
    ((w >> 7) & 0x1f) as u8
}

pub fn funct3(w: u32) -> (r: u8)
    ensures
        r == model::funct3_of(w),
{
    proof { model::lemma_word_fields(w); }
    ((w >> 12) & 0x07) as u8
}

pub fn rs1(w: u32) -> (r: u8)
    ensures
        r == model::rs1_of(w),
{
    proof { model::lemma_word_fields(w); }
    ((w >> 15) & 0x1f) as u8
}

pub fn rs2(w: u32) -> (r: u8)
    ensures
        r == model::rs2_of(w),
{
    proof { model::lemma_word_fields(w); }
    ((w >> 20) & 0x1f) as u8
}

pub fn funct7(w: u32) -> (r: u8)
    ensures
        r == model::funct7_of(w),
{
    proof { model::lemma_word_fields(w); }
    ((w >> 25) & 0x7f) as u8
}

impl RType {
    pub fn decode(w: u32) -> (r: Self)
        ensures
            r == (RType { rd: model::rd_of(w), rs1: model::rs1_of(w), rs2: model::rs2_of(w) }),
    {
        Self { rd: rd(w), rs1: rs1(w), rs2: rs2(w) }
    }
}

impl IType {
    pub fn decode(w: u32) -> (r: Self)
        ensures
            r == (IType { rd: model::rd_of(w), rs1: model::rs1_of(w), imm: model::imm_i_of(w) }),
    {
        Self { rd: rd(w), rs1: rs1(w), imm: encoding::imm_i(w) }
    }
}

impl ShiftIType {
    pub fn decode(w: u32) -> (r: Self)
        ensures
            r == (ShiftIType { rd: model::rd_of(w), rs1: model::rs1_of(w), shamt: model::rs2_of(w) as u32 }),
    {
        proof { model::lemma_word_fields(w); }
        Self { rd: rd(w), rs1: rs1(w), shamt: (w >> 20) & 0x1f }
    }
}

impl SType {
    pub fn decode(w: u32) -> (r: Self)
        ensures
            r == (SType { rs1: model::rs1_of(w), rs2: model::rs2_of(w), imm: model::imm_s_of(w) }),
    {
        Self { rs1: rs1(w), rs2: rs2(w), imm: encoding::imm_s(w) }
    }
}

impl BType {
    pub fn decode(w: u32) -> (r: Self)
        ensures
            r == (BType { rs1: model::rs1_of(w), rs2: model::rs2_of(w), imm: model::imm_b_of(w) }),
    {
        Self { rs1: rs1(w), rs2: rs2(w), imm: encoding::imm_b(w) }
    }
}

impl UType {
    pub fn decode(w: u32) -> (r: Self)
        ensures
            r == (UType { rd: model::rd_of(w), imm: model::imm_u_of(w) }),
    {
        Self { rd: rd(w), imm: encoding::imm_u(w) }
    }
}

impl JType {
    pub fn decode(w: u32) -> (r: Self)
        ensures
            r == (JType { rd: model::rd_of(w), imm: model::imm_j_of(w) }),
    {
        Self { rd: rd(w), imm: encoding::imm_j(w) }
    }
}

} // verus!
