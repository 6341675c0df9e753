//! Instruction formats and the format each major opcode uses.
use vstd::prelude::*;
use crate::opcode::Opcode;

verus! {

#[derive(Clone, Copy, Debug, PartialEq, Eq)]
pub enum Format {
    R,
    I,
    S,
    B,
    U,
    J,
    System,
}

/// The format of the instructions with major opcode `opcode`.
pub open spec fn format_of(opcode: Opcode) -> Format {
    match opcode {
        Opcode::Op => Format::R,
        Opcode::Load | Opcode::OpImm | Opcode::Jalr | Opcode::MiscMem => Format::I,
        Opcode::Store => Format::S,
        Opcode::Branch => Format::B,
        Opcode::Lui | Opcode::Auipc => Format::U,
        Opcode::Jal => Format::J,
        Opcode::System => Format::System,
    }
}

impl Format {
    pub fn from_opcode(opcode: Opcode) -> (r: Self)
        ensures
            r == format_of(opcode),
    {
        match opcode {
            Opcode::Op => Self::R,
            Opcode::Load | Opcode::OpImm | Opcode::Jalr | Opcode::MiscMem => Self::I,
            Opcode::Store => Self::S,
            Opcode::Branch => Self::B,
            Opcode::Lui | Opcode::Auipc => Self::U,
            Opcode::Jal => Self::J,
            Opcode::System => Self::System,
        }
    }
}

} // verus!
