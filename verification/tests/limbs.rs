use rv32im_decoder::limb16::Limb16;
use rv32im_decoder::m_extension::{
    decompose_32bit_limbs, decompose_u32, mul_via_limbs, reconstruct_from_limbs,
    verify_limb_decomposition,
};
use rv32im_decoder::word::Word;

#[test]
fn splits_and_rejoins_a_word() {
    let word = 0xdead_beefu32;
    let (low, high) = Limb16::split(word);

    assert_eq!(low.get(), 0xbeef);
    assert_eq!(high.get(), 0xdead);
    assert_eq!(Limb16::join(low, high), word);
}

#[test]
fn word_round_trips_through_limbs() {
    let word = Word::new(0x1234_5678);
    let (low, high) = word.limbs();

    assert_eq!(Word::from_limbs(low, high), word);
    assert_eq!(word.low_limb(), Limb16::new(0x5678));
    assert_eq!(word.high_limb(), Limb16::new(0x1234));
}

#[test]
fn test_decompose_and_reconstruct_roundtrip() {
    let samples: [u32; 6] = [0, 1, 0xffff, 0x0001_0000, 0x1234_5678, 0xffff_ffff];

    for &x in &samples {
        let (lo, hi) = decompose_u32(x);
        let y = reconstruct_from_limbs(lo, hi);
        assert_eq!(x, y, "roundtrip failed for {:#010x}", x);
    }
}

#[test]
fn test_pair_decomposition_consistency() {
    let pairs: &[(u32, u32)] = &[
        (0, 0),
        (1, 1),
        (0xffff, 0xffff),
        (0x0001_0000, 0x0001_0000),
        (0x1234_5678, 0x9abc_def0),
        (0xffff_ffff, 0xffff_ffff),
    ];

    for &(a, b) in pairs {
        let (a0, a1, b0, b1) = decompose_32bit_limbs(a, b);
        let ra = reconstruct_from_limbs(a0, a1);
        let rb = reconstruct_from_limbs(b0, b1);
        assert_eq!(a, ra, "a reconstruction failed for {:#010x}", a);
        assert_eq!(b, rb, "b reconstruction failed for {:#010x}", b);
    }
}

#[test]
fn test_limb_product_matches_native() {
    let pairs: &[(u32, u32)] = &[
        (0, 0),
        (0, 123456),
        (1, 0xffff_ffff),
        (0xffff, 0xffff),
        (0x1234_5678, 0x9abc_def0),
        (0xffff_ffff, 0xffff_ffff),
    ];

    for &(a, b) in pairs {
        let native = (a as u64) * (b as u64);
        let via_limbs = mul_via_limbs(a, b);
        assert_eq!(native, via_limbs, "mul_via_limbs mismatch for a={:#010x}, b={:#010x}", a, b);
    }
}

#[test]
fn test_verify_limb_decomposition_ok() {
    let pairs: &[(u32, u32)] = &[
        (0, 0),
        (1, 1),
        (123, 456),
        (0x0001_0000, 0x0002_0003),
        (0x1234_5678, 0x9abc_def0),
        (0xffff_ffff, 0xffff_ffff),
    ];

    for &(a, b) in pairs {
        verify_limb_decomposition(a, b).unwrap();
    }
}

#[test]
fn word_fields_and_bits() {
    let word = Word::new(0x0273_02b3);
    assert_eq!(word.opcode(), 0x33);
    assert_eq!(word.rd(), 5);
    assert_eq!(word.funct3(), 0);
    assert_eq!(word.rs1(), 6);
    assert_eq!(word.rs2(), 7);
    assert_eq!(word.funct7(), 1);
    assert!(word.is_standard_32());
    assert!(!Word::new(0x0000_0001).is_standard_32());
    assert!(word.bit(0));
    assert!(!word.bit(2));
    assert_eq!(word.bits(0, 0), 0);
    assert_eq!(word.bits(4, 32), 0x0273_02b3 >> 4);
    assert_eq!(u32::from(Word::from(7u32)), 7);
    assert_eq!(u16::from(Limb16::from(9u16)), 9);
}
