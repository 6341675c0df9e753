//! Instructions that carry the decoded fields of their format, with the
//! operation as a separate tag.
use vstd::prelude::*;
use crate::formats::{BType, IType, JType, RType, SType, UType};
use crate::instruction::{BranchKind, LoadKind, OpImmKind, OpKind, StoreKind, SystemKind};

verus! {

/// A decoded RV32IM instruction: an operation tag and the fields of its format.
#[derive(Debug, Clone, Copy, PartialEq, Eq)]
pub enum Instruction {
    Lui(UType),
    Auipc(UType),
    Jal(JType),
    Jalr(IType),
    Branch(BranchKind, BType),
    Load(LoadKind, IType),
    Store(StoreKind, SType),
    OpImm(OpImmKind, IType),
    Op(OpKind, RType),
    Fence,
    FenceI,
    System(SystemKind),
}

} // verus!
