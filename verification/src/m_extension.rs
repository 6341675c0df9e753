//! RV32M on the zkVM: decoding to `MInstruction`, the 16-bit limb
//! decomposition that multiplication is checked against, and division with
//! the RISC-V conventions for a zero divisor.
use vstd::prelude::*;
use crate::error::ZkvmError;
use crate::formats::RType;
use crate::instruction::{m_op_kind_of, MInstruction, OpKind};
use crate::model;
use crate::util::div_trunc;

verus! {

/// The low and high 16-bit limbs of a word.
#[derive(Debug, Clone, Copy, PartialEq, Eq)]
pub struct Limb16 {
    pub lo: u16,
    pub hi: u16,
}

impl Limb16 {
    pub fn from_u32(v: u32) -> (r: Self)
        ensures
            r.lo == v % 0x10000,
            r.hi == v / 0x10000,
    {
        proof { model::lemma_word_fields(v); }
        Self { lo: v as u16, hi: (v >> 16) as u16 }
    }

    /// The word with these limbs.
    pub fn to_u32(self) -> (r: u32)
        ensures
            r == self.lo + self.hi * 0x10000,
    {
        reconstruct_from_limbs(self.lo, self.hi)
    }
}

/// Splitting a word into limbs and joining them again gives the word back.
pub proof fn law_limb16_round_trip(v: u32, limbs: Limb16)
    requires
        limbs.lo == v % 0x10000,
        limbs.hi == v / 0x10000,
    ensures
        limbs.lo + limbs.hi * 0x10000 == v,
{
}

/// The low and high 16-bit limbs of `x`.
pub fn decompose_u32(x: u32) -> (r: (u16, u16))
    ensures
        r.0 == x % 0x10000,
        r.1 == x / 0x10000,
{
    proof { model::lemma_limb_split(x); }
    ((x & 0xffff) as u16, (x >> 16) as u16)
}

/// The word whose low limb is `lo` and whose high limb is `hi`.
pub fn reconstruct_from_limbs(lo: u16, hi: u16) -> (r: u32)
    ensures
        r == lo + hi * 0x10000,
{
    proof { model::lemma_join16(lo, hi); }
    (lo as u32) | ((hi as u32) << 16)
}

/// The limbs of both operands of a multiplication: `(a0, a1, b0, b1)`.
pub fn decompose_32bit_limbs(a: u32, b: u32) -> (r: (u16, u16, u16, u16))
    ensures
        r.0 == a % 0x10000,
        r.1 == a / 0x10000,
        r.2 == b % 0x10000,
        r.3 == b / 0x10000,
{
    let (a0, a1) = decompose_u32(a);
    let (b0, b1) = decompose_u32(b);
    (a0, a1, b0, b1)
}

/// The full product of two words, from the four 16-by-16-bit partial products.
pub fn mul_via_limbs(a: u32, b: u32) -> (r: u64)
    ensures
        r == a * b,
{
    let (a0, a1, b0, b1) = decompose_32bit_limbs(a, b);
    proof { model::lemma_limb_product(a, b); }
    let p00 = a0 as u64 * b0 as u64;
    let cross = a0 as u64 * b1 as u64 + a1 as u64 * b0 as u64;
    let p11 = a1 as u64 * b1 as u64;
    proof {
        model::lemma_u64_shifts(cross);
        model::lemma_u64_shifts(p11);
    }
    p00 + (cross << 16) + (p11 << 32)
}

/// Checks that both operands recompose from their limbs; they always do.
pub fn verify_limb_decomposition(a: u32, b: u32) -> (r: Result<(), ZkvmError>)
    ensures
        r is Ok,
{
    let (a0, a1, b0, b1) = decompose_32bit_limbs(a, b);
    if reconstruct_from_limbs(a0, a1) != a {
        return Err(ZkvmError::DecodeInvariantViolation { word: a, message: "lhs limb recomposition" });
    }
    if reconstruct_from_limbs(b0, b1) != b {
        return Err(ZkvmError::DecodeInvariantViolation { word: b, message: "rhs limb recomposition" });
    }
    Ok(())
}

/// The product of a multiplication, as recorded in the execution trace.
#[derive(Debug, Clone, Copy, PartialEq, Eq)]
pub struct MulLimb16Trace {
    pub product: u64,
}

impl MulLimb16Trace {
    pub fn new(a: u32, b: u32) -> (r: Self)
        ensures
            r.product == a * b,
    {
        proof { model::lemma_limb_product(a, b); }
        Self { product: (a as u64) * (b as u64) }
    }
}

/// The M instruction selected by `funct3`, on the given registers.
pub open spec fn m_instruction_of(funct3: u8, rd: u8, rs1: u8, rs2: u8) -> MInstruction {
    if funct3 == 0 {
        MInstruction::Mul { rd, rs1, rs2 }
    } else if funct3 == 1 {
        MInstruction::Mulh { rd, rs1, rs2 }
    } else if funct3 == 2 {
        MInstruction::Mulhsu { rd, rs1, rs2 }
    } else if funct3 == 3 {
        MInstruction::Mulhu { rd, rs1, rs2 }
    } else if funct3 == 4 {
        MInstruction::Div { rd, rs1, rs2 }
    } else if funct3 == 5 {
        MInstruction::Divu { rd, rs1, rs2 }
    } else if funct3 == 6 {
        MInstruction::Rem { rd, rs1, rs2 }
    } else {
        MInstruction::Remu { rd, rs1, rs2 }
    }
}

/// Decodes the M instruction of an R-type word by its funct3; opcode and
/// funct7 are not consulted.
pub fn decode_m(w: u32) -> (r: Result<MInstruction, ZkvmError>)
    ensures
        r == Ok::<MInstruction, ZkvmError>(
            m_instruction_of(model::funct3_of(w), model::rd_of(w), model::rs1_of(w), model::rs2_of(w)),
        ),
{
    let r = RType::decode(w);
    match crate::formats::funct3(w) {
        0 => Ok(MInstruction::Mul { rd: r.rd, rs1: r.rs1, rs2: r.rs2 }),
        1 => Ok(MInstruction::Mulh { rd: r.rd, rs1: r.rs1, rs2: r.rs2 }),
        2 => Ok(MInstruction::Mulhsu { rd: r.rd, rs1: r.rs1, rs2: r.rs2 }),
        3 => Ok(MInstruction::Mulhu { rd: r.rd, rs1: r.rs1, rs2: r.rs2 }),
        4 => Ok(MInstruction::Div { rd: r.rd, rs1: r.rs1, rs2: r.rs2 }),
        5 => Ok(MInstruction::Divu { rd: r.rd, rs1: r.rs1, rs2: r.rs2 }),
        6 => Ok(MInstruction::Rem { rd: r.rd, rs1: r.rs1, rs2: r.rs2 }),
        _ => Ok(MInstruction::Remu { rd: r.rd, rs1: r.rs1, rs2: r.rs2 }),
    }
}

/// The full product of two words.
pub fn mul_u32_limb16(a: u32, b: u32) -> (r: u64)
    ensures
        r == a * b,
{
    proof { model::lemma_limb_product(a, b); }
    (a as u64) * (b as u64)
}

/// Signed division; a zero divisor gives `u32::MAX`. The overflowing case
/// `i32::MIN / -1` is not accepted.
pub fn div(a: i32, b: i32) -> (r: u32)
    requires
        !(a == i32::MIN && b == -1),
    ensures
        r == (if b == 0 { u32::MAX as int } else { model::as_word(model::trunc_div(a as int, b as int)) }),
{
    if b == 0 {
        u32::MAX
    } else {
        let q = div_trunc(a, b);
        proof { model::lemma_i32_as_u32(q); }
        q as u32
    }
}

/// Unsigned division; a zero divisor gives `u32::MAX`.
pub fn divu(a: u32, b: u32) -> (r: u32)
    ensures
        r == model::div_unsigned_of(a, b),
{
    if b == 0 { u32::MAX } else { a / b }
}

/// Signed remainder; a zero divisor gives the dividend. The overflowing case
/// `i32::MIN % -1` is not accepted.
pub fn rem(a: i32, b: i32) -> (r: u32)
    requires
        !(a == i32::MIN && b == -1),
    ensures
        r == model::as_word(if b == 0 { a as int } else { model::trunc_rem(a as int, b as int) }),
{
    proof { model::lemma_i32_as_u32(a); }
    if b == 0 {
        a as u32
    } else {
        proof { model::lemma_trunc_rem(a as int, b as int); }
        let m = a % b;
        proof { model::lemma_i32_as_u32(m); }
        m as u32
    }
}

/// Unsigned remainder; a zero divisor gives the dividend.
pub fn remu(a: u32, b: u32) -> (r: u32)
    ensures
        r == model::rem_unsigned_of(a, b),
{
    if b == 0 { a } else { a % b }
}

/// The value `execute_m` gives.
pub open spec fn execute_m_of(inst: MInstruction, a: u32, b: u32) -> u32 {
    match inst {
        MInstruction::Mul { .. } => ((a * b) % 0x1_0000_0000) as u32,
        MInstruction::Divu { .. } => model::div_unsigned_of(a, b) as u32,
        _ => 0u32,
    }
}

/// Executes MUL (low word of the product) and DIVU; every other M
/// instruction yields 0.
pub fn execute_m(inst: MInstruction, a: u32, b: u32) -> (r: Result<u32, ZkvmError>)
    ensures
        r == Ok::<u32, ZkvmError>(execute_m_of(inst, a, b)),
{
    match inst {
        MInstruction::Mul { .. } => {
            let p = mul_u32_limb16(a, b);
            proof { model::lemma_u64_shifts(p); }
            Ok(p as u32)
        },
        MInstruction::Divu { .. } => Ok(divu(a, b)),
        _ => Ok(0),
    }
}

/// A division witness; it carries no data.
#[derive(Debug, Clone, Copy, PartialEq, Eq)]
pub struct DivRemWitness {}

pub fn divrem_witness_unsigned(a: u32, b: u32) -> (r: DivRemWitness) {
    DivRemWitness {}
}

pub fn divrem_witness_signed(a: i32, b: i32) -> (r: DivRemWitness) {
    DivRemWitness {}
}

/// The operation of an M instruction.
pub open spec fn m_kind_of(i: MInstruction) -> OpKind {
    match i {
        MInstruction::Mul { .. } => OpKind::Mul,
        MInstruction::Mulh { .. } => OpKind::Mulh,
        MInstruction::Mulhsu { .. } => OpKind::Mulhsu,
        MInstruction::Mulhu { .. } => OpKind::Mulhu,
        MInstruction::Div { .. } => OpKind::Div,
        MInstruction::Divu { .. } => OpKind::Divu,
        MInstruction::Rem { .. } => OpKind::Rem,
        MInstruction::Remu { .. } => OpKind::Remu,
    }
}

/// The registers `(rd, rs1, rs2)` of an M instruction.
pub open spec fn m_registers_of(i: MInstruction) -> (u8, u8, u8) {
    match i {
        MInstruction::Mul { rd, rs1, rs2 } | MInstruction::Mulh { rd, rs1, rs2 }
        | MInstruction::Mulhsu { rd, rs1, rs2 } | MInstruction::Mulhu { rd, rs1, rs2 }
        | MInstruction::Div { rd, rs1, rs2 } | MInstruction::Divu { rd, rs1, rs2 }
        | MInstruction::Rem { rd, rs1, rs2 } | MInstruction::Remu { rd, rs1, rs2 } => (rd, rs1, rs2),
    }
}

/// `decode_m` follows the RV32M funct3 table (0 MUL, 1 MULH, 2 MULHSU,
/// 3 MULHU, 4 DIV, 5 DIVU, 6 REM, 7 REMU) and keeps the word's registers; on
/// an M-extension word it yields the same operation and registers as the
/// RV32IM decoder (`crate::decode`).
pub proof fn law_decode_m_follows_funct3_table(w: u32)
    ensures
        ({
            let i = m_instruction_of(model::funct3_of(w), model::rd_of(w), model::rs1_of(w), model::rs2_of(w));
            &&& m_kind_of(i) == m_op_kind_of(model::funct3_of(w))
            &&& m_registers_of(i) == (model::rd_of(w), model::rs1_of(w), model::rs2_of(w))
            &&& (model::opcode_of(w) == 0b0110011 && model::funct7_of(w) == 1) ==> crate::decoder::decode_of(w)
                == Ok::<crate::instruction::Instruction, ZkvmError>(crate::instruction::Instruction::Op {
                kind: m_kind_of(i),
                rd: model::rd_of(w),
                rs1: model::rs1_of(w),
                rs2: model::rs2_of(w),
            })
        }),
{
}

/// What `execute_m` computes, stated by the property of its result: MUL gives
/// the word congruent to the product modulo 2^32, DIVU the unsigned quotient
/// (all ones for a zero divisor), and every other instruction 0.
pub proof fn law_execute_m_semantics(inst: MInstruction, a: u32, b: u32)
    ensures
        inst is Mul ==> (execute_m_of(inst, a, b) - a * b) % 0x1_0000_0000 == 0,
        inst is Divu ==> if b == 0 {
            execute_m_of(inst, a, b) == u32::MAX
        } else {
            execute_m_of(inst, a, b) * b <= a < (execute_m_of(inst, a, b) + 1) * b
        },
        !(inst is Mul || inst is Divu) ==> execute_m_of(inst, a, b) == 0,
{
    let k: int = 0x1_0000_0000;
    match inst {
        MInstruction::Mul { .. } => {
            model::lemma_limb_product(a, b);
            vstd::arithmetic::div_mod::lemma_mod_bound(a * b, k);
            vstd::arithmetic::div_mod::lemma_fundamental_div_mod(a * b, k);
            vstd::arithmetic::div_mod::lemma_mod_multiples_basic(-((a * b) / k), k);
            assert((a * b) % k - a * b == -((a * b) / k) * k) by (nonlinear_arith)
                requires
                    a * b == k * ((a * b) / k) + (a * b) % k,
            ;
        },
        MInstruction::Divu { .. } => {
            if b != 0 {
                vstd::arithmetic::div_mod::lemma_fundamental_div_mod(a as int, b as int);
                vstd::arithmetic::div_mod::lemma_mod_bound(a as int, b as int);
                let q = (a as int) / (b as int);
                assert(q * b == b * q) by (nonlinear_arith);
                assert((q + 1) * b == q * b + b) by (nonlinear_arith);
                assert(0 <= q <= a) by {
                    vstd::arithmetic::div_mod::lemma_div_pos_is_pos(a as int, b as int);
                    vstd::arithmetic::div_mod::lemma_div_is_ordered_by_denominator(a as int, 1, b as int);
                }
            }
        },
        _ => {},
    }
}

} // verus!
