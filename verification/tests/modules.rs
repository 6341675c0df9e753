use rv32im_decoder::decoder::base_i::decode_base_i;
use rv32im_decoder::decoder::invariants::{ensure_standard_32bit, expect_funct7, register};
use rv32im_decoder::decoder::sign_ext::{sign_extend, sign_extend_byte, sign_extend_half, zero_extend};
use rv32im_decoder::error::{DecodeError, DecoderError};
use rv32im_decoder::extensions::base_i;
use rv32im_decoder::extensions::{ExtensionDecoder, IExtension, Instruction as Flat, MExtension};
use rv32im_decoder::format::Format;
use rv32im_decoder::formats::{BType, IType, JType, RType, SType, ShiftIType, UType};
use rv32im_decoder::formatted::Instruction as Formatted;
use rv32im_decoder::i_extension;
use rv32im_decoder::i_extension::Instruction as Grouped;
use rv32im_decoder::immediate;
use rv32im_decoder::instruction::Instruction;
use rv32im_decoder::invariants::{ensure_register, ensure_utf8, ensure_zkvm_symbol_parity};
use rv32im_decoder::isa::basei::{decode_basei, Extension, InstructionFormat};
use rv32im_decoder::isa::mext;
use rv32im_decoder::opcode::Opcode;
use rv32im_decoder::selectors::HierSelectors;
use rv32im_decoder::validate::validate;
use rv32im_decoder::word::Word;
use rv32im_decoder::{decode, BranchKind, LoadKind, OpImmKind, OpKind, Register, StoreKind, SystemKind, ZkvmError};

#[test]
fn selectors_of_decoded_words_are_well_formed() {
    let words = [0x1234_5537u32, 0x0200_00ef, 0x0020_8863, 0x0032_2623, 0x0000_0073, 0x0000_000f, 0x0020_81b3];
    for w in words {
        let s = HierSelectors::from_instruction(&decode_base_i(Word::new(w)).unwrap());
        assert!(s.is_well_formed());
        assert_eq!(s.top_sum(), 1);
        assert!(!s.is_m_extension());
    }
    let rtype = RType { rd: 1, rs1: 2, rs2: 3 };
    let s = HierSelectors::from_instruction(&Formatted::Op(OpKind::Divu, rtype));
    assert!(s.is_well_formed());
    assert!(s.is_m_extension());
    assert_eq!(s.m_leaf_sum(), 1);
    assert_eq!((s.op, s.op_m, s.div_family, s.divu, s.op_base), (1, 1, 1, 1, 0));
    let v = s.as_mle_vector();
    assert_eq!(v.iter().map(|&x| x as u32).sum::<u32>(), 4);
    assert_eq!(v[8], 1);
    assert_eq!(v[20], 1);
    let mut bad = s;
    bad.lui = 1;
    assert!(!bad.is_well_formed());
    assert_eq!(HierSelectors::default().top_sum(), 0);
}

#[test]
fn validation_checks_immediates() {
    assert_eq!(validate(&Instruction::Lui { rd: 1, imm: 0x1000 }), Ok(()));
    assert_eq!(
        validate(&Instruction::Lui { rd: 1, imm: 0x1001 }),
        Err(DecodeError::Validation("U-immediate must have low 12 bits cleared"))
    );
    assert_eq!(
        validate(&Instruction::Jal { rd: 1, imm: 3 }),
        Err(DecodeError::Validation("control-flow immediate must be 2-byte aligned"))
    );
    assert_eq!(
        validate(&Instruction::OpImm { kind: OpImmKind::Slli, rd: 1, rs1: 1, imm: 32 }),
        Err(DecodeError::Validation("shift amount must be in 0..=31"))
    );
    assert_eq!(validate(&Instruction::OpImm { kind: OpImmKind::Addi, rd: 1, rs1: 1, imm: -32 }), Ok(()));
    for w in [0x1234_5537u32, 0x0200_00ef, 0x0020_8863, 0x4073_5293, 0xfe00_0ee3] {
        assert_eq!(validate(&decode(w).unwrap()), Ok(()));
    }
}

#[test]
fn opcode_and_format_tables() {
    let all = [
        Opcode::Load, Opcode::MiscMem, Opcode::OpImm, Opcode::Auipc, Opcode::Store, Opcode::Op,
        Opcode::Lui, Opcode::Branch, Opcode::Jalr, Opcode::Jal, Opcode::System,
    ];
    for o in all {
        assert_eq!(Opcode::from_bits(o.bits()), Ok(o));
    }
    assert_eq!(Opcode::from_bits(0x7f), Err(DecodeError::InvalidOpcode(0x7f)));
    assert_eq!(Opcode::from_word(0x0020_81b3), Ok(Opcode::Op));
    assert_eq!(Format::from_opcode(Opcode::Op), Format::R);
    assert_eq!(Format::from_opcode(Opcode::MiscMem), Format::I);
    assert_eq!(Format::from_opcode(Opcode::Store), Format::S);
    assert_eq!(Format::from_opcode(Opcode::Branch), Format::B);
    assert_eq!(Format::from_opcode(Opcode::Auipc), Format::U);
    assert_eq!(Format::from_opcode(Opcode::Jal), Format::J);
    assert_eq!(Format::from_opcode(Opcode::System), Format::System);
}

#[test]
fn group_decoders() {
    assert_eq!(
        i_extension::decode_branch(0x0020_8863),
        Ok(Grouped::Branch { kind: BranchKind::Beq, rs1: 1, rs2: 2, imm: 16 })
    );
    assert_eq!(
        i_extension::decode_branch(0x0020_a863),
        Err(DecoderError::InvalidFunct3 { opcode: 0x63, funct3: 2 })
    );
    assert_eq!(
        i_extension::decode_load(0xffc1_2083),
        Ok(Grouped::Load { kind: LoadKind::Lw, rd: 1, rs1: 2, imm: -4 })
    );
    assert_eq!(
        i_extension::decode_store(0x0032_2623),
        Ok(Grouped::Store { kind: StoreKind::Sw, rs1: 4, rs2: 3, imm: 12 })
    );
    assert_eq!(
        i_extension::decode_op_imm(0x4073_5293),
        Ok(Grouped::OpImm { kind: OpImmKind::Srai, rd: 5, rs1: 6, imm: 7 })
    );
    assert_eq!(
        i_extension::decode_op_imm(0x2073_5293),
        Err(DecoderError::InvalidFunct7 { opcode: 0x13, funct3: 5, funct7: 0x10 })
    );
    assert_eq!(
        i_extension::decode_op(0x4020_81b3),
        Ok(Grouped::Op { kind: OpKind::Sub, rd: 3, rs1: 1, rs2: 2 })
    );
    assert_eq!(
        i_extension::decode_op(0x0220_81b3),
        Err(DecoderError::InvalidFunct7 { opcode: 0x33, funct3: 0, funct7: 1 })
    );
    assert_eq!(i_extension::decode_misc_mem(0x0000_100f), Ok(Grouped::FenceI));
    assert_eq!(i_extension::decode_misc_mem(0x8330_000f), Ok(Grouped::Fence));
    assert_eq!(i_extension::decode_misc_mem(0x0000_000f), Ok(Grouped::Fence));
    assert_eq!(
        i_extension::decode_misc_mem(0x0000_200f),
        Err(DecoderError::InvalidFunct3 { opcode: 0x0f, funct3: 2 })
    );
    assert_eq!(i_extension::decode_system(0x0010_0073), Ok(Grouped::System { kind: SystemKind::Ebreak }));
    assert_eq!(i_extension::decode_system(0x0020_0073), Err(DecoderError::ReservedInstruction(0x0020_0073)));
}

#[test]
fn format_decoders_and_immediates() {
    let w = 0xfe00_0ee3u32; // beq x0, x0, -4
    assert_eq!(BType::decode(w), BType { rs1: 0, rs2: 0, imm: -4 });
    assert_eq!(immediate::b_type(w), -4);
    assert_eq!(IType::decode(0xffc1_2083), IType { rd: 1, rs1: 2, imm: -4 });
    assert_eq!(immediate::i_type(0xffc1_2083), -4);
    assert_eq!(ShiftIType::decode(0x4073_5293), ShiftIType { rd: 5, rs1: 6, shamt: 7 });
    assert_eq!(SType::decode(0xfe11_2e23), SType { rs1: 2, rs2: 1, imm: -4 });
    assert_eq!(immediate::s_type(0xfe11_2e23), -4);
    assert_eq!(UType::decode(0x1234_5537), UType { rd: 10, imm: 0x1234_5000 });
    assert_eq!(immediate::u_type(0x1234_5537), 0x1234_5000);
    assert_eq!(JType::decode(0xffdf_f0ef), JType { rd: 1, imm: -4 });
    assert_eq!(immediate::j_type(0xffdf_f0ef), -4);
    assert_eq!(RType::decode(0x0020_81b3), RType { rd: 3, rs1: 1, rs2: 2 });
    assert_eq!(immediate::sign_extend(0xfff, 12), -1);
    assert_eq!(immediate::sign_extend(0xfff, 0), 0);
    assert_eq!(immediate::shamt(0x4073_5293), 7);
    assert_eq!(immediate::csr(0x3002_5073), 0x300);
    assert_eq!(immediate::zimm(0x3002_5073), 4);
    assert_eq!(sign_extend(0x80, 8), -128);
    assert_eq!(sign_extend(0x8000_0000, 40), i32::MIN);
    assert_eq!(zero_extend(0xffff_ffff, 8), 0xff);
    assert_eq!(sign_extend_byte(0xff), -1);
    assert_eq!(sign_extend_half(0x8000), -32768);
}

#[test]
fn formatted_decoder() {
    assert_eq!(
        decode_base_i(Word::new(0x0020_8863)),
        Ok(Formatted::Branch(BranchKind::Beq, BType { rs1: 1, rs2: 2, imm: 16 }))
    );
    assert_eq!(
        decode_base_i(Word::new(0x0000_0073)),
        Ok(Formatted::System(SystemKind::Ecall))
    );
    assert_eq!(
        decode_base_i(Word::new(0x0000_1073)),
        Err(ZkvmError::InvalidEncoding { word: 0x0000_1073, reason: "only ecall and ebreak are supported in the decoder" })
    );
    assert_eq!(
        decode_base_i(Word::new(0x0000_007f)),
        Err(ZkvmError::UnsupportedOpcode { opcode: 0x7f, word: 0x7f })
    );
    assert_eq!(
        decode_base_i(Word::new(0x0220_81b3)),
        Err(ZkvmError::UnsupportedFunct7 { opcode: 0x33, funct3: 0, funct7: 1, word: 0x0220_81b3 })
    );
}

#[test]
fn record_decoder_and_field_decoders() {
    let r = base_i::decode(0x1234_5537).unwrap();
    assert_eq!((r.opcode, r.rd, r.imm, r.mnemonic, r.extension), (0x37, 10, 0x1234_5000, "lui", "I"));
    let r = base_i::decode(0x0020_9863).unwrap();
    assert_eq!((r.rs1, r.rs2, r.funct3, r.imm, r.mnemonic), (1, 2, 1, 16, "bne"));
    assert_eq!(
        base_i::decode(0x0020_81b3),
        Err(ZkvmError::UnsupportedOpcode { opcode: 0x33, word: 0x0020_81b3 })
    );
    assert_eq!(
        base_i::decode(0x0000_1067),
        Err(ZkvmError::UnsupportedFunct3 { opcode: 0x67, funct3: 1, word: 0x0000_1067 })
    );
    assert_eq!(mext::decode(5, 1, 2, 3), Ok(Flat::Divu { rd: 1, rs1: 2, rs2: 3 }));
    assert_eq!(mext::decode(9, 1, 2, 3), Err(ZkvmError::UnimplementedVariant(9)));
    let b = decode_basei(0x13, Opcode::OpImm).unwrap();
    assert_eq!((b.word, b.opcode, b.format, b.extension, b.mnemonic), (0x13, Opcode::OpImm, InstructionFormat::Unknown, Extension::BaseI, "addi"));
    assert_eq!(IExtension.decode(0x0000_0073), Some(Flat::Ecall));
    assert_eq!(IExtension.decode(0x0000_007f), None);
    assert_eq!(MExtension.decode(0x0273_02b3), Some(Flat::Mul { rd: 5, rs1: 6, rs2: 7 }));
    assert_eq!(MExtension.decode(0x0020_81b3), None);
}

#[test]
fn invariant_checks() {
    assert_eq!(ensure_standard_32bit(0x13), Ok(()));
    assert_eq!(ensure_standard_32bit(0x12), Err(ZkvmError::CompressedInstructionUnsupported { word: 0x12 }));
    assert_eq!(register(31, "rd").map(|r| r.index()), Ok(31));
    assert_eq!(register(32, "rd"), Err(ZkvmError::InvalidRegister { reg: 32, context: "rd" }));
    assert_eq!(expect_funct7(0x0020_81b3, 0x33, 0x20, &[0x00, 0x20]), Ok(()));
    assert_eq!(
        expect_funct7(0x0020_81b3, 0x33, 0x10, &[0x00, 0x20]),
        Err(ZkvmError::InvalidFunct7 { opcode: 0x33, funct3: 0, funct7: 0x10, word: 0x0020_81b3 })
    );
    assert_eq!(ensure_register(31), Ok(()));
    assert_eq!(ensure_register(32), Err(DecoderError::InvalidRegister { reg: 32 }));
    assert_eq!(ensure_utf8("addi"), Ok(()));
    assert_eq!(ensure_zkvm_symbol_parity(), Ok(()));
    assert_eq!(Register::new(32), Err(DecodeError::InvalidRegister(32)));
    assert_eq!(Register::new(10).unwrap().abi_name(), "a0");
    assert_eq!(Register::from_u5(33).index(), 1);
    assert_eq!(Register::zero().abi_name(), "zero");
}
