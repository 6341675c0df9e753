//! Verified decoder for RV32IM instruction words.
pub mod model;
pub mod encoding;
pub mod error;
pub mod register;
pub mod instruction;
pub mod decoder;
pub mod util;
pub mod types;
pub mod fields;
pub mod invariants;
pub mod extensions;
pub mod i_extension;
pub mod limb16;
pub mod word;
pub mod formats;
pub mod formatted;
pub mod selectors;
pub mod validate;
pub mod opcode;
pub mod format;
pub mod immediate;
pub mod limbs;
pub mod m_extension;
pub mod isa;
pub mod mul;

pub use decoder::{decode, decode_base, decode_bytes, decode_m_extension};
pub use error::ZkvmError;
pub use instruction::{BranchKind, Instruction, LoadKind, OpImmKind, OpKind, StoreKind, SystemKind};
pub use register::Register;
pub use limb16::Limb16;
pub use word::Word;
pub use types::Zkvm;
pub use decoder::rv32m::MulDecomposition;
