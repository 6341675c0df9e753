use rv32im_decoder::decoder::{m_ext, m_extension as dm, rv32m};
use rv32im_decoder::error::DecodeError;
use rv32im_decoder::extensions::m_extension as xme;
use rv32im_decoder::extensions::m as xm;
use rv32im_decoder::instruction::MInstruction;
use rv32im_decoder::m_extension as me;
use rv32im_decoder::mul;
use rv32im_decoder::types::Instruction;
use rv32im_decoder::Register;

const SAMPLES: [u32; 8] = [0, 1, 7, 0x7fff_ffff, 0x8000_0000, 0xffff_fff9, 0xffff_ffff, 0x1234_5678];

fn r0() -> Register {
    Register::from_u5(0)
}

#[test]
fn multiplication_matches_native_for_every_variant() {
    for &a in &SAMPLES {
        for &b in &SAMPLES {
            let full = (a as u64) * (b as u64);
            let signed = (a as i32 as i64) * (b as i32 as i64);
            let mixed = (a as i32 as i64) * (b as i64);
            assert_eq!(xm::mul(a, b), full as u32);
            assert_eq!(xm::mulhu(a, b), (full >> 32) as u32);
            assert_eq!(xm::mulh(a, b), (signed >> 32) as u32);
            assert_eq!(xm::mulhsu(a, b), (mixed >> 32) as u32);
            assert_eq!(xme::mul_low(a, b), full as u32);
            assert_eq!(xme::mulhu(a, b), (full >> 32) as u32);
            assert_eq!(xme::mulh(a, b), (signed >> 32) as u32);
            assert_eq!(xme::mulhsu(a, b), (mixed >> 32) as u32);
            assert_eq!(rv32m::mul_low_u32(a, b), Ok(full as u32));
            assert_eq!(rv32m::mulhu_unsigned(a, b), Ok((full >> 32) as u32));
            assert_eq!(rv32m::mulh_signed(a as i32, b as i32), Ok((signed >> 32) as u32));
            assert_eq!(rv32m::mulhsu_signed_unsigned(a as i32, b), Ok((mixed >> 32) as u32));
            assert_eq!(m_ext::limb16_mul_u64(a, b), full);
            assert_eq!(m_ext::mulhu_u32_limb16(a, b), (full >> 32) as u32);
            assert_eq!(m_ext::mulh_i32_limb16(a as i32, b as i32), (signed >> 32) as u32);
            assert_eq!(m_ext::mulhsu_i32_u32_limb16(a as i32, b), (mixed >> 32) as u32);
            assert_eq!(dm::mul_u32_wide(a, b), full);
            assert!(dm::lemma_6_1_1_parity(a, b));
            assert_eq!(dm::mulhu(a, b), (full >> 32) as u32);
            assert_eq!(dm::mulh(a as i32, b as i32), (signed >> 32) as i32);
            assert_eq!(dm::mulhsu(a as i32, b), (mixed >> 32) as i32);
            assert_eq!(me::mul_u32_limb16(a, b), full);
            assert_eq!(me::mul_via_limbs(a, b), full);
            assert_eq!(me::MulLimb16Trace::new(a, b).product, full);
        }
    }
}

#[test]
fn high_word_formulas_on_known_values() {
    assert_eq!(xm::mulh(0xffff_ffff, 0xffff_ffff), 0);
    assert_eq!(xm::mulhu(0xffff_ffff, 0xffff_ffff), 0xffff_fffe);
    assert_eq!(xm::mulhsu(0xffff_ffff, 0xffff_ffff), 0xffff_ffff);
    assert_eq!(xm::mulh(0x8000_0000, 0x8000_0000), 0x4000_0000);
}

#[test]
fn division_follows_risc_v_conventions() {
    // Division by zero.
    assert_eq!(xm::div(5, 0), u32::MAX);
    assert_eq!(xm::divu(5, 0), u32::MAX);
    assert_eq!(xm::rem(5, 0), 5);
    assert_eq!(xm::remu(5, 0), 5);
    // Signed overflow.
    assert_eq!(xm::div(0x8000_0000, 0xffff_ffff), 0x8000_0000);
    assert_eq!(xm::rem(0x8000_0000, 0xffff_ffff), 0);
    // Truncation toward zero; the remainder takes the dividend's sign.
    assert_eq!(xm::div((-7i32) as u32, 2), (-3i32) as u32);
    assert_eq!(xm::rem((-7i32) as u32, 2), (-1i32) as u32);
    assert_eq!(xm::div(7, (-2i32) as u32), (-3i32) as u32);
    assert_eq!(xm::rem(7, (-2i32) as u32), 1);
    assert_eq!(xm::divu(7, 2), 3);
    assert_eq!(xm::remu(7, 2), 1);
    for &a in &SAMPLES {
        for &b in &SAMPLES {
            let (sa, sb) = (a as i32, b as i32);
            assert_eq!(rv32m::div_signed(sa, sb), Ok(xm::div(a, b)));
            assert_eq!(rv32m::rem_signed(sa, sb), Ok(xm::rem(a, b)));
            assert_eq!(rv32m::div_unsigned(a, b), Ok(xm::divu(a, b)));
            assert_eq!(rv32m::rem_unsigned(a, b), Ok(xm::remu(a, b)));
            assert_eq!(xme::div(a, b), xm::div(a, b));
            assert_eq!(xme::rem(a, b), xm::rem(a, b));
            assert_eq!(xme::divu(a, b), xm::divu(a, b));
            assert_eq!(xme::remu(a, b), xm::remu(a, b));
            if b != 0 && !(sa == i32::MIN && sb == -1) {
                assert_eq!(xm::div(a, b), (sa / sb) as u32);
                assert_eq!(xm::rem(a, b), (sa % sb) as u32);
                assert_eq!(me::div(sa, sb), (sa / sb) as u32);
                assert_eq!(me::rem(sa, sb), (sa % sb) as u32);
                let q = xm::div(a, b) as i32 as i64;
                let r = xm::rem(a, b) as i32 as i64;
                assert_eq!(q * (sb as i64) + r, sa as i64);
            }
            if b != 0 {
                assert_eq!(xm::divu(a, b) * b + xm::remu(a, b), a);
            }
        }
    }
    assert_eq!(me::div(9, 0), u32::MAX);
    assert_eq!(me::rem(-9, 0), (-9i32) as u32);
    assert_eq!(me::divu(9, 0), u32::MAX);
    assert_eq!(me::remu(9, 0), 9);
}

#[test]
fn execute_dispatches_on_the_operation() {
    let (a, b) = (0xffff_fff9u32, 2u32);
    let regs = (r0(), r0(), r0());
    let cases = [
        (Instruction::Mul { rd: regs.0, rs1: regs.1, rs2: regs.2 }, xm::mul(a, b)),
        (Instruction::Mulh { rd: regs.0, rs1: regs.1, rs2: regs.2 }, xm::mulh(a, b)),
        (Instruction::Mulhsu { rd: regs.0, rs1: regs.1, rs2: regs.2 }, xm::mulhsu(a, b)),
        (Instruction::Mulhu { rd: regs.0, rs1: regs.1, rs2: regs.2 }, xm::mulhu(a, b)),
        (Instruction::Div { rd: regs.0, rs1: regs.1, rs2: regs.2 }, xm::div(a, b)),
        (Instruction::Divu { rd: regs.0, rs1: regs.1, rs2: regs.2 }, xm::divu(a, b)),
        (Instruction::Rem { rd: regs.0, rs1: regs.1, rs2: regs.2 }, xm::rem(a, b)),
        (Instruction::Remu { rd: regs.0, rs1: regs.1, rs2: regs.2 }, xm::remu(a, b)),
    ];
    for (inst, expected) in cases {
        assert_eq!(xme::execute_m_instruction(inst, a, b), Some(expected));
    }
    assert_eq!(xme::execute_m_instruction(Instruction::Ecall, a, b), None);

    assert_eq!(me::execute_m(MInstruction::Mul { rd: 1, rs1: 2, rs2: 3 }, a, b), Ok(a.wrapping_mul(b)));
    assert_eq!(me::execute_m(MInstruction::Divu { rd: 1, rs1: 2, rs2: 3 }, 9, 2), Ok(4));
    assert_eq!(me::execute_m(MInstruction::Rem { rd: 1, rs1: 2, rs2: 3 }, 9, 2), Ok(0));
}

#[test]
fn limb_helpers() {
    let d = rv32m::decompose_mul_operands(0x1234_5678, 0x9abc_def0).unwrap();
    assert_eq!((d.a0, d.a1, d.b0, d.b1), (0x5678, 0x1234, 0xdef0, 0x9abc));
    assert_eq!((d.lhs(), d.rhs()), (0x1234_5678, 0x9abc_def0));
    assert_eq!(d.partial_products(), (0x5678 * 0xdef0, 0x5678 * 0x9abc, 0x1234 * 0xdef0, 0x1234 * 0x9abc));
    assert_eq!(d.validate(), Ok(d));
    assert_eq!(m_ext::decompose_u32_limb16(0xdead_beef), [0xbeef, 0xdead]);
    assert_eq!(m_ext::compose_u32_limb16([0xbeef, 0xdead]), 0xdead_beef);
    let l = dm::decompose(0xdead_beef);
    assert_eq!((l.low, l.high), (0xbeef, 0xdead));
    let s = xme::split_u32_to_limbs(0xdead_beef);
    assert_eq!((s.a0, s.a1), (0xbeef, 0xdead));
    let w = rv32im_decoder::limbs::Limb16::decompose(0xdead_beef);
    assert_eq!((w.low, w.high), (0xbeef, 0xdead));
    assert_eq!(xme::abs_i32_as_u32(-5), 5);
    assert_eq!(xme::abs_i32_as_u32(i32::MIN), 0x8000_0000);
    assert_eq!(xme::abs_i32_as_u32(7), 7);
    assert!(matches!(rv32im_decoder::invariants::ensure_limb16(5, 5, 0, "x"), Ok(())));
    assert_eq!(
        rv32im_decoder::invariants::ensure_limb16(5, 4, 0, "x"),
        Err(DecodeError::InvalidLimbDecomposition("x"))
    );
}

#[test]
fn signed_high_and_low_words_form_the_signed_product() {
    for &a in &SAMPLES {
        for &b in &SAMPLES {
            let signed = (a as i32 as i64) * (b as i32 as i64);
            let joined = ((xm::mulh(a, b) as u64) << 32) | xm::mul(a, b) as u64;
            assert_eq!(joined, signed as u64);
            let unsigned = ((xm::mulhu(a, b) as u64) << 32) | xm::mul(a, b) as u64;
            assert_eq!(unsigned, (a as u64) * (b as u64));
        }
    }
}

#[test]
fn hierarchical_reduction_matches_native() {
    let r = mul::reduce_u32_mul(0x1234_5678, 0x9abc_def0);
    assert_eq!((r.a0, r.a1, r.b0, r.b1), (0x5678, 0x1234, 0xdef0, 0x9abc));
    assert_eq!(r.low_term, 0x5678 * 0xdef0);
    assert_eq!(r.cross_term, 0x1234 * 0xdef0 + 0x5678 * 0x9abc);
    assert_eq!(r.high_term, 0x1234 * 0x9abc);
    assert_eq!(r.product, 0x1234_5678u64 * 0x9abc_def0u64);
    for &a in &SAMPLES {
        for &b in &SAMPLES {
            let full = (a as u64) * (b as u64);
            let signed = (a as i32 as i64) * (b as i32 as i64);
            let mixed = (a as i32 as i64) * (b as i64);
            assert_eq!(mul::product_u64(a, b), full);
            assert_eq!(mul::mul(a, b), full as u32);
            assert_eq!(mul::mulhu(a, b), (full >> 32) as u32);
            assert_eq!(mul::mulh(a, b), (signed >> 32) as u32);
            assert_eq!(mul::mulhsu(a, b), (mixed >> 32) as u32);
            let red = mul::reduce_u32_mul(a, b);
            assert_eq!((red.low(), red.high()), (full as u32, (full >> 32) as u32));
        }
    }
}
