//! Decoded RV32IM instructions, grouped by major opcode with a kind tag.
use vstd::prelude::*;

verus! {

#[derive(Debug, Clone, Copy, PartialEq, Eq)]
pub enum BranchKind {
    Beq,
    Bne,
    Blt,
    Bge,
    Bltu,
    Bgeu,
}

#[derive(Debug, Clone, Copy, PartialEq, Eq)]
pub enum LoadKind {
    Lb,
    Lh,
    Lw,
    Lbu,
    Lhu,
}

#[derive(Debug, Clone, Copy, PartialEq, Eq)]
pub enum StoreKind {
    Sb,
    Sh,
    Sw,
}

#[derive(Debug, Clone, Copy, PartialEq, Eq)]
pub enum OpImmKind {
    Addi,
    Slti,
    Sltiu,
    Xori,
    Ori,
    Andi,
    Slli,
    Srli,
    Srai,
}

/// Register-register operations of RV32I and RV32M.
#[derive(Debug, Clone, Copy, PartialEq, Eq)]
pub enum OpKind {
    Add,
    Sub,
    Sll,
    Slt,
    Sltu,
    Xor,
    Srl,
    Sra,
    Or,
    And,
    Mul,
    Mulh,
    Mulhsu,
    Mulhu,
    Div,
    Divu,
    Rem,
    Remu,
}

#[derive(Debug, Clone, Copy, PartialEq, Eq)]
pub enum SystemKind {
    Ecall,
    Ebreak,
}

/// A decoded instruction; register numbers are the raw 5-bit fields.
#[allow(inconsistent_fields)]
#[derive(Debug, Clone, Copy, PartialEq, Eq)]
pub enum Instruction {
    Lui { rd: u8, imm: i32 },
    Auipc { rd: u8, imm: i32 },
    Jal { rd: u8, imm: i32 },
    Jalr { rd: u8, rs1: u8, imm: i32 },
    Branch { kind: BranchKind, rs1: u8, rs2: u8, imm: i32 },
    Load { kind: LoadKind, rd: u8, rs1: u8, imm: i32 },
    Store { kind: StoreKind, rs1: u8, rs2: u8, imm: i32 },
    OpImm { kind: OpImmKind, rd: u8, rs1: u8, imm: i32 },
    Op { kind: OpKind, rd: u8, rs1: u8, rs2: u8 },
    Fence { pred: u8, succ: u8, fm: u8 },
    FenceI,
    System { kind: SystemKind },
}

/// An instruction together with the word it was decoded from.
#[derive(Debug, Clone, Copy, PartialEq, Eq)]
pub struct DecodedInstruction {
    pub word: u32,
    pub instruction: Instruction,
}

impl DecodedInstruction {
    pub fn new(word: u32, instruction: Instruction) -> (r: DecodedInstruction)
        ensures
            r.word == word,
            r.instruction == instruction,
    {
        DecodedInstruction { word, instruction }
    }
}

/// The RV32M instructions, each with its three registers.
#[derive(Debug, Clone, Copy, PartialEq, Eq)]
pub enum MInstruction {
    Mul { rd: u8, rs1: u8, rs2: u8 },
    Mulh { rd: u8, rs1: u8, rs2: u8 },
    Mulhsu { rd: u8, rs1: u8, rs2: u8 },
    Mulhu { rd: u8, rs1: u8, rs2: u8 },
    Div { rd: u8, rs1: u8, rs2: u8 },
    Divu { rd: u8, rs1: u8, rs2: u8 },
    Rem { rd: u8, rs1: u8, rs2: u8 },
    Remu { rd: u8, rs1: u8, rs2: u8 },
}

/// Branch condition selected by funct3.
pub open spec fn branch_kind_of(funct3: u8) -> Option<BranchKind> {
    match funct3 {
        0b000 => Some(BranchKind::Beq),
        0b001 => Some(BranchKind::Bne),
        0b100 => Some(BranchKind::Blt),
        0b101 => Some(BranchKind::Bge),
        0b110 => Some(BranchKind::Bltu),
        0b111 => Some(BranchKind::Bgeu),
        _ => None,
    }
}

/// Load width and signedness selected by funct3.
pub open spec fn load_kind_of(funct3: u8) -> Option<LoadKind> {
    match funct3 {
        0b000 => Some(LoadKind::Lb),
        0b001 => Some(LoadKind::Lh),
        0b010 => Some(LoadKind::Lw),
        0b100 => Some(LoadKind::Lbu),
        0b101 => Some(LoadKind::Lhu),
        _ => None,
    }
}

/// Store width selected by funct3.
pub open spec fn store_kind_of(funct3: u8) -> Option<StoreKind> {
    match funct3 {
        0b000 => Some(StoreKind::Sb),
        0b001 => Some(StoreKind::Sh),
        0b010 => Some(StoreKind::Sw),
        _ => None,
    }
}

/// Register-immediate operation selected by funct3 and, for shifts, funct7.
pub open spec fn op_imm_kind_of(funct3: u8, funct7: u8) -> Option<OpImmKind> {
    match funct3 {
        0b000 => Some(OpImmKind::Addi),
        0b010 => Some(OpImmKind::Slti),
        0b011 => Some(OpImmKind::Sltiu),
        0b100 => Some(OpImmKind::Xori),
        0b110 => Some(OpImmKind::Ori),
        0b111 => Some(OpImmKind::Andi),
        0b001 => if funct7 == 0 { Some(OpImmKind::Slli) } else { None },
        0b101 => if funct7 == 0 {
            Some(OpImmKind::Srli)
        } else if funct7 == 0b0100000 {
            Some(OpImmKind::Srai)
        } else {
            None
        },
        _ => None,
    }
}

/// RV32I register-register operation selected by funct3 and funct7.
pub open spec fn base_op_kind_of(funct3: u8, funct7: u8) -> Option<OpKind> {
    if funct7 == 0 {
        match funct3 {
            0b000 => Some(OpKind::Add),
            0b001 => Some(OpKind::Sll),
            0b010 => Some(OpKind::Slt),
            0b011 => Some(OpKind::Sltu),
            0b100 => Some(OpKind::Xor),
            0b101 => Some(OpKind::Srl),
            0b110 => Some(OpKind::Or),
            0b111 => Some(OpKind::And),
            _ => None,
        }
    } else if funct7 == 0b0100000 {
        match funct3 {
            0b000 => Some(OpKind::Sub),
            0b101 => Some(OpKind::Sra),
            _ => None,
        }
    } else {
        None
    }
}

/// RV32M operation selected by funct3 (funct7 = 0b0000001).
pub open spec fn m_op_kind_of(funct3: u8) -> OpKind {
    match funct3 {
        0 => OpKind::Mul,
        1 => OpKind::Mulh,
        2 => OpKind::Mulhsu,
        3 => OpKind::Mulhu,
        4 => OpKind::Div,
        5 => OpKind::Divu,
        6 => OpKind::Rem,
        _ => OpKind::Remu,
    }
}

/// Assembly mnemonic of a register-register operation.
pub open spec fn op_mnemonic_of(kind: OpKind) -> &'static str {
    match kind {
        OpKind::Add => "add",
        OpKind::Sub => "sub",
        OpKind::Sll => "sll",
        OpKind::Slt => "slt",
        OpKind::Sltu => "sltu",
        OpKind::Xor => "xor",
        OpKind::Srl => "srl",
        OpKind::Sra => "sra",
        OpKind::Or => "or",
        OpKind::And => "and",
        OpKind::Mul => "mul",
        OpKind::Mulh => "mulh",
        OpKind::Mulhsu => "mulhsu",
        OpKind::Mulhu => "mulhu",
        OpKind::Div => "div",
        OpKind::Divu => "divu",
        OpKind::Rem => "rem",
        OpKind::Remu => "remu",
    }
}

/// Whether an operation belongs to the M extension.
pub open spec fn is_m_op(kind: OpKind) -> bool {
    match kind {
        OpKind::Mul | OpKind::Mulh | OpKind::Mulhsu | OpKind::Mulhu | OpKind::Div | OpKind::Divu
        | OpKind::Rem | OpKind::Remu => true,
        _ => false,
    }
}

impl OpKind {
    /// Assembly mnemonic, e.g. `"mul"`.
    pub fn mnemonic(self) -> (r: &'static str)
        ensures
            r == op_mnemonic_of(self),
    {
        match self {
            OpKind::Add => "add",
            OpKind::Sub => "sub",
            OpKind::Sll => "sll",
            OpKind::Slt => "slt",
            OpKind::Sltu => "sltu",
            OpKind::Xor => "xor",
            OpKind::Srl => "srl",
            OpKind::Sra => "sra",
            OpKind::Or => "or",
            OpKind::And => "and",
            OpKind::Mul => "mul",
            OpKind::Mulh => "mulh",
            OpKind::Mulhsu => "mulhsu",
            OpKind::Mulhu => "mulhu",
            OpKind::Div => "div",
            OpKind::Divu => "divu",
            OpKind::Rem => "rem",
            OpKind::Remu => "remu",
        }
    }

    pub fn is_m_extension(self) -> (r: bool)
        ensures
            r == is_m_op(self),
    {
        match self {
            OpKind::Mul | OpKind::Mulh | OpKind::Mulhsu | OpKind::Mulhu | OpKind::Div
            | OpKind::Divu | OpKind::Rem | OpKind::Remu => true,
            _ => false,
        }
    }
}

} // verus!
