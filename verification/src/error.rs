//! Error types of the decoders.
use vstd::prelude::*;

verus! {

/// Errors of the RV32IM decoders and of the machine that runs them.
#[derive(Debug, Clone, Copy, PartialEq, Eq)]
pub enum ZkvmError {
    IllegalInstruction { word: u32, opcode: u8 },
    UnsupportedInstruction { word: u32, reason: &'static str },
    RegisterOutOfRange(u8),
    MisalignedPc(u32),
    MisalignedMemoryAccess { addr: u32, width: usize },
    MemoryOutOfBounds { addr: u32, size: usize, memory_len: usize },
    InvalidShiftAmount(u32),
    StepLimitExceeded(usize),
    /// The major opcode is not one of RV32IM.
    UnsupportedOpcode { opcode: u8, word: u32 },
    /// The funct3 field is not defined for the opcode.
    UnsupportedFunct3 { opcode: u8, funct3: u8, word: u32 },
    /// The funct7 field is not defined for the opcode and funct3.
    UnsupportedFunct7 { opcode: u8, funct3: u8, funct7: u8, word: u32 },
    /// A shift-immediate with a funct7 other than 0 or 0b0100000.
    InvalidShiftEncoding(u32),
    /// Reserved fields of FENCE or SYSTEM are not zero, or an unknown SYSTEM function.
    InvalidInstruction(u32),
    InvalidEncoding { word: u32, reason: &'static str },
    InvalidOpcode { opcode: u8, word: u32 },
    InvalidFunct3 { opcode: u8, funct3: u8, word: u32 },
    InvalidFunct7 { opcode: u8, funct3: u8, funct7: u8, word: u32 },
    /// The low two bits are not 0b11: a compressed (16-bit) encoding.
    CompressedInstructionUnsupported { word: u32 },
    InvalidRegister { reg: u8, context: &'static str },
    DecodeInvariantViolation { word: u32, message: &'static str },
    UnimplementedVariant(u32),
}

/// Errors of the register-typed decoders and of instruction validation.
#[derive(Debug, Clone, Copy, PartialEq, Eq)]
pub enum DecodeError {
    InvalidRegister(u8),
    InvalidOpcode(u8),
    InvalidFunct3 { opcode: u8, funct3: u8 },
    InvalidFunct7 { opcode: u8, funct7: u8 },
    UnsupportedInstruction(u32),
    Validation(&'static str),
    InvalidLimbDecomposition(&'static str),
}

/// Errors of the word-level base decoder and of the decoder's self-checks.
#[derive(Debug, Clone, Copy, PartialEq, Eq)]
pub enum DecoderError {
    InvalidFunct3 { opcode: u8, funct3: u8 },
    InvalidFunct7 { opcode: u8, funct3: u8, funct7: u8 },
    ReservedInstruction(u32),
    InvalidRegister { reg: u8 },
    InvariantViolation(&'static str),
}

pub type ZkvmResult<T> = Result<T, ZkvmError>;

pub type DecodeResult<T> = Result<T, DecoderError>;

} // verus!
