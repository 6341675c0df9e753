//! RV32M arithmetic on register bit patterns with wrapping multiplication,
//! and its dispatch by decoded instruction.
use vstd::prelude::*;
use crate::extensions::m;
use crate::model;
use crate::types::Instruction;

verus! {

/// The two 16-bit limbs of a word.
#[derive(Debug, Clone, Copy, PartialEq, Eq)]
pub struct LimbDecomposition {
    pub a0: u16,
    pub a1: u16,
}

/// Splits `value` into its low and high 16-bit limbs.
pub fn split_u32_to_limbs(value: u32) -> (r: LimbDecomposition)
    ensures
        r.a0 == value % 0x10000,
        r.a1 == value / 0x10000,
        value == r.a0 + r.a1 * 0x10000,
{
    proof { model::lemma_limb_split(value); }
    LimbDecomposition { a0: (value & 0xffff) as u16, a1: (value >> 16) as u16 }
}

/// The magnitude of a signed word, as an unsigned word.
pub fn abs_i32_as_u32(value: i32) -> (r: u32)
    ensures
        r == model::abs(value as int),
{
    proof { model::lemma_i32_as_u32(value); }
    if value < 0 {
        let negated = 0i32.wrapping_sub(value);
        proof { model::lemma_i32_as_u32(negated); }
        negated as u32
    } else {
        value as u32
    }
}

/// MUL: the low word of the product.
pub fn mul_low(lhs: u32, rhs: u32) -> (r: u32)
    ensures
        r == (lhs * rhs) % 0x1_0000_0000,
{
    lhs.wrapping_mul(rhs)
}

/// A product of two values in the signed 64-bit range is its own wrapping product.
proof fn lemma_i64_product_in_range(x: i64, y: i64)
    requires
        i64::MIN <= x * y <= i64::MAX,
    ensures
        vstd::wrapping::i64_specs::wrapping_mul(x, y) == x * y,
{
    let v = x * y;
    if v >= 0 {
        vstd::arithmetic::div_mod::lemma_small_mod(v as nat, 0x1_0000_0000_0000_0000nat);
    } else {
        vstd::arithmetic::div_mod::lemma_fundamental_div_mod_converse(
            v,
            0x1_0000_0000_0000_0000int,
            -1,
            v + 0x1_0000_0000_0000_0000int,
        );
    }
}

/// MULH: the high word of the signed product.
pub fn mulh(lhs: u32, rhs: u32) -> (r: u32)
    ensures
        r == ((model::signed32(lhs) * model::signed32(rhs)) / 0x1_0000_0000) % 0x1_0000_0000,
{
    proof {
        model::lemma_u32_as_i32(lhs);
        model::lemma_u32_as_i32(rhs);
        model::lemma_signed_product_bounds(model::signed32(lhs), model::signed32(rhs));
        lemma_i64_product_in_range(lhs as i32 as i64, rhs as i32 as i64);
    }
    let product = (lhs as i32 as i64).wrapping_mul(rhs as i32 as i64);
    proof {
        model::lemma_i64_shr32(product);
        model::lemma_i64_as_u32(product >> 32);
    }
    (product >> 32) as u32
}

/// MULHSU: the high word of the product of a signed and an unsigned word.
pub fn mulhsu(lhs: u32, rhs: u32) -> (r: u32)
    ensures
        r == ((model::signed32(lhs) * rhs) / 0x1_0000_0000) % 0x1_0000_0000,
{
    proof {
        model::lemma_u32_as_i32(lhs);
        model::lemma_signed_unsigned_product_bounds(model::signed32(lhs), rhs as int);
        lemma_i64_product_in_range(lhs as i32 as i64, rhs as u64 as i64);
    }
    let product = (lhs as i32 as i64).wrapping_mul(rhs as u64 as i64);
    proof {
        model::lemma_i64_shr32(product);
        model::lemma_i64_as_u32(product >> 32);
    }
    (product >> 32) as u32
}

/// MULHU: the high word of the unsigned product.
pub fn mulhu(lhs: u32, rhs: u32) -> (r: u32)
    ensures
        r == (lhs * rhs) / 0x1_0000_0000,
{
    proof {
        model::lemma_limb_product(lhs, rhs);
        vstd::arithmetic::div_mod::lemma_small_mod(
            (lhs * rhs) as nat,
            0x1_0000_0000_0000_0000nat,
        );
    }
    let product = (lhs as u64).wrapping_mul(rhs as u64);
    proof { model::lemma_u64_shifts(product); }
    (product >> 32) as u32
}

/// DIV on the bit patterns of two words.
pub fn div(lhs: u32, rhs: u32) -> (r: u32)
    ensures
        r == model::as_word(model::div_signed_of(lhs as i32, rhs as i32)),
{
    m::div(lhs, rhs)
}

/// DIVU.
pub fn divu(lhs: u32, rhs: u32) -> (r: u32)
    ensures
        r == model::div_unsigned_of(lhs, rhs),
{
    if rhs == 0 { u32::MAX } else { lhs / rhs }
}

/// REM on the bit patterns of two words.
pub fn rem(lhs: u32, rhs: u32) -> (r: u32)
    ensures
        r == model::as_word(model::rem_signed_of(lhs as i32, rhs as i32)),
{
    m::rem(lhs, rhs)
}

/// REMU.
pub fn remu(lhs: u32, rhs: u32) -> (r: u32)
    ensures
        r == model::rem_unsigned_of(lhs, rhs),
{
    if rhs == 0 { lhs } else { lhs % rhs }
}

/// The value an M-extension instruction writes for the operands `lhs` and
/// `rhs`, computed on their bit patterns.
pub open spec fn m_result_of(inst: Instruction, lhs: u32, rhs: u32) -> Option<int> {
    match inst {
        Instruction::Mul { .. } => Some((lhs * rhs) % 0x1_0000_0000),
        Instruction::Mulh { .. } => Some(
            ((model::signed32(lhs) * model::signed32(rhs)) / 0x1_0000_0000) % 0x1_0000_0000,
        ),
        Instruction::Mulhsu { .. } => Some(((model::signed32(lhs) * rhs) / 0x1_0000_0000) % 0x1_0000_0000),
        Instruction::Mulhu { .. } => Some((lhs * rhs) / 0x1_0000_0000),
        Instruction::Div { .. } => Some(model::as_word(model::div_signed_of(lhs as i32, rhs as i32))),
        Instruction::Divu { .. } => Some(model::div_unsigned_of(lhs, rhs)),
        Instruction::Rem { .. } => Some(model::as_word(model::rem_signed_of(lhs as i32, rhs as i32))),
        Instruction::Remu { .. } => Some(model::rem_unsigned_of(lhs, rhs)),
        _ => None,
    }
}

/// Executes an M-extension instruction on two operand values; `None` for any
/// other instruction.
pub fn execute_m_instruction(inst: Instruction, lhs: u32, rhs: u32) -> (r: Option<u32>)
    ensures
        match m_result_of(inst, lhs, rhs) {
            Some(v) => r == Some(v as u32) && 0 <= v < 0x1_0000_0000,
            None => r is None,
        },
{
    match inst {
        Instruction::Mul { .. } => Some(mul_low(lhs, rhs)),
        Instruction::Mulh { .. } => Some(mulh(lhs, rhs)),
        Instruction::Mulhsu { .. } => Some(mulhsu(lhs, rhs)),
        Instruction::Mulhu { .. } => Some(mulhu(lhs, rhs)),
        Instruction::Div { .. } => Some(div(lhs, rhs)),
        Instruction::Divu { .. } => Some(divu(lhs, rhs)),
        Instruction::Rem { .. } => Some(rem(lhs, rhs)),
        Instruction::Remu { .. } => Some(remu(lhs, rhs)),
        _ => None,
    }
}

/// The signed value of an executed result, read as a word.
pub open spec fn signed_result(v: int) -> int {
    if v >= 0x8000_0000 { v - 0x1_0000_0000 } else { v }
}

/// What each M instruction computes, stated by the property its result must
/// have rather than by its formula:
/// - MUL gives the word congruent to the product modulo 2^32;
/// - MULHU, MULH and MULHSU give the high word that, above MUL's low word,
///   makes up the 64-bit product of the operands read unsigned/unsigned,
///   signed/signed and signed/unsigned respectively;
/// - DIV and REM give the quotient rounded toward zero and the remainder with
///   the dividend's sign and a magnitude below the divisor's; DIVU and REMU
///   the unsigned quotient and remainder;
/// - a zero divisor gives all ones as quotient and the dividend as remainder,
///   and the overflowing `i32::MIN / -1` gives `i32::MIN` with remainder 0;
/// - any other instruction gives no result.
pub proof fn law_execute_m_instruction_semantics(inst: Instruction, a: u32, b: u32)
    ensures
        m_result_of(inst, a, b) matches Some(v) ==> 0 <= v < 0x1_0000_0000,
        inst is Mul ==> (m_result_of(inst, a, b) matches Some(v) && (v - a * b) % 0x1_0000_0000 == 0),
        inst is Mulhu ==> (m_result_of(inst, a, b) matches Some(v) && v * 0x1_0000_0000 + (a * b)
            % 0x1_0000_0000 == a * b),
        inst is Mulh ==> (m_result_of(inst, a, b) matches Some(v) && v * 0x1_0000_0000 + (a * b)
            % 0x1_0000_0000 == (model::signed32(a) * model::signed32(b)) % 0x1_0000_0000_0000_0000),
        inst is Mulhsu ==> (m_result_of(inst, a, b) matches Some(v) && v * 0x1_0000_0000 + (a * b)
            % 0x1_0000_0000 == (model::signed32(a) * b) % 0x1_0000_0000_0000_0000),
        inst is Divu ==> (m_result_of(inst, a, b) matches Some(v) && (if b == 0 {
            v == u32::MAX
        } else {
            v * b <= a < (v + 1) * b
        })),
        inst is Remu ==> (m_result_of(inst, a, b) matches Some(v) && (if b == 0 {
            v == a
        } else {
            v < b && (a - v) % (b as int) == 0
        })),
        inst is Div ==> (m_result_of(inst, a, b) matches Some(v) && ({
            let (sa, sb, q) = (model::signed32(a), model::signed32(b), signed_result(v));
            if b == 0 {
                v == u32::MAX
            } else if sa == i32::MIN && sb == -1 {
                q == i32::MIN
            } else {
                &&& model::abs(sa - q * sb) < model::abs(sb)
                &&& (sa - q * sb == 0 || (sa - q * sb < 0) == (sa < 0))
            }
        })),
        inst is Rem ==> (m_result_of(inst, a, b) matches Some(v) && ({
            let (sa, sb, r) = (model::signed32(a), model::signed32(b), signed_result(v));
            if b == 0 {
                v == a
            } else if sa == i32::MIN && sb == -1 {
                v == 0
            } else {
                &&& model::abs(r) < model::abs(sb)
                &&& (r == 0 || (r < 0) == (sa < 0))
                &&& (sa - r) % model::abs(sb) == 0
            }
        })),
        !(inst is Mul || inst is Mulh || inst is Mulhsu || inst is Mulhu || inst is Div || inst is Divu
            || inst is Rem || inst is Remu) ==> m_result_of(inst, a, b) is None,
{
    let k: int = 0x1_0000_0000;
    let (sa, sb) = (model::signed32(a), model::signed32(b));
    model::lemma_u32_as_i32(a);
    model::lemma_u32_as_i32(b);
    model::lemma_limb_product(a, b);
    model::lemma_signed32_congruent(a);
    model::lemma_signed32_congruent(b);
    vstd::arithmetic::div_mod::lemma_mod_bound(a * b, k);
    match inst {
        Instruction::Mul { .. } => {
            vstd::arithmetic::div_mod::lemma_fundamental_div_mod(a * b, k);
            vstd::arithmetic::div_mod::lemma_mod_multiples_basic(-((a * b) / k), k);
            assert((a * b) % k - a * b == k * -((a * b) / k)) by (nonlinear_arith)
                requires
                    a * b == k * ((a * b) / k) + (a * b) % k,
            ;
            assert(-((a * b) / k) * k == k * -((a * b) / k)) by (nonlinear_arith);
        },
        Instruction::Mulhu { .. } => {
            m::law_unsigned_product_words(a, b);
        },
        Instruction::Mulh { .. } => {
            model::lemma_signed_product_bounds(sa, sb);
            model::lemma_high_low_split(sa * sb);
            model::lemma_low_word_of_congruent(a as int, b as int, sa, sb);
        },
        Instruction::Mulhsu { .. } => {
            model::lemma_high_low_split(sa * b);
            model::lemma_low_word_of_congruent(a as int, b as int, sa, b as int);
        },
        Instruction::Divu { .. } => {
            if b != 0 {
                vstd::arithmetic::div_mod::lemma_fundamental_div_mod(a as int, b as int);
                vstd::arithmetic::div_mod::lemma_mod_bound(a as int, b as int);
                let q = (a as int) / (b as int);
                assert(q * b == b * q) by (nonlinear_arith);
                assert((q + 1) * b == q * b + b) by (nonlinear_arith);
                assert(0 <= q <= a) by {
                    vstd::arithmetic::div_mod::lemma_div_pos_is_pos(a as int, b as int);
                    vstd::arithmetic::div_mod::lemma_div_is_ordered_by_denominator(a as int, 1, b as int);
                }
            }
        },
        Instruction::Remu { .. } => {
            if b != 0 {
                vstd::arithmetic::div_mod::lemma_fundamental_div_mod(a as int, b as int);
                vstd::arithmetic::div_mod::lemma_mod_bound(a as int, b as int);
                let q = (a as int) / (b as int);
                vstd::arithmetic::div_mod::lemma_mod_multiples_basic(q, b as int);
                assert(a - (a as int) % (b as int) == q * b) by (nonlinear_arith)
                    requires
                        a == b * q + (a as int) % (b as int),
                ;
            }
        },
        Instruction::Div { .. } => {
            if b != 0 && !(sa == i32::MIN && sb == -1) {
                m::law_signed_division_identity(a as i32, b as i32);
                let q = model::trunc_div(sa, sb);
                assert(sa - q * sb == model::trunc_rem(sa, sb));
            }
        },
        Instruction::Rem { .. } => {
            if b != 0 && !(sa == i32::MIN && sb == -1) {
                m::law_signed_division_identity(a as i32, b as i32);
                let q = model::trunc_div(sa, sb);
                let r = model::trunc_rem(sa, sb);
                let c = model::abs(sb);
                let q2 = if sb < 0 { -q } else { q };
                assert(q * sb == q2 * c) by (nonlinear_arith)
                    requires
                        c == model::abs(sb),
                        q2 == if sb < 0 { -q } else { q },
                ;
                vstd::arithmetic::div_mod::lemma_mod_multiples_basic(q2, c);
                assert(sa - r == q * sb);
            }
        },
        _ => {},
    }
}

} // verus!
