//! One-hot selector flags of a decoded instruction, arranged as a hierarchy:
//! the major opcode group, then base or M operation, then the M family
//! (multiply or divide), then the M operation itself.
use vstd::prelude::*;
use crate::formatted::Instruction;
use crate::instruction::{is_m_op, OpKind};

verus! {

#[derive(Debug, Clone, Copy, PartialEq, Eq)]
pub struct HierSelectors {
    pub lui: u8,
    pub auipc: u8,
    pub jal: u8,
    pub jalr: u8,
    pub branch: u8,
    pub load: u8,
    pub store: u8,
    pub op_imm: u8,
    pub op: u8,
    pub misc_mem: u8,
    pub system: u8,
    pub op_base: u8,
    pub op_m: u8,
    pub mul_family: u8,
    pub div_family: u8,
    pub mul: u8,
    pub mulh: u8,
    pub mulhsu: u8,
    pub mulhu: u8,
    pub div: u8,
    pub divu: u8,
    pub rem: u8,
    pub remu: u8,
}

/// All selectors off.
pub open spec fn no_selectors() -> HierSelectors {
    HierSelectors {
        lui: 0,
        auipc: 0,
        jal: 0,
        jalr: 0,
        branch: 0,
        load: 0,
        store: 0,
        op_imm: 0,
        op: 0,
        misc_mem: 0,
        system: 0,
        op_base: 0,
        op_m: 0,
        mul_family: 0,
        div_family: 0,
        mul: 0,
        mulh: 0,
        mulhsu: 0,
        mulhu: 0,
        div: 0,
        divu: 0,
        rem: 0,
        remu: 0,
    }
}

impl Default for HierSelectors {
    fn default() -> (r: Self)
        ensures
            r == no_selectors(),
    {
        HierSelectors {
            lui: 0,
            auipc: 0,
            jal: 0,
            jalr: 0,
            branch: 0,
            load: 0,
            store: 0,
            op_imm: 0,
            op: 0,
            misc_mem: 0,
            system: 0,
            op_base: 0,
            op_m: 0,
            mul_family: 0,
            div_family: 0,
            mul: 0,
            mulh: 0,
            mulhsu: 0,
            mulhu: 0,
            div: 0,
            divu: 0,
            rem: 0,
            remu: 0,
        }
    }
}

/// The selectors of a register-register operation: `op` with its base/M
/// split, and for M operations the family and the leaf.
pub open spec fn op_selectors_of(kind: OpKind) -> HierSelectors {
    let s = HierSelectors { op: 1, ..no_selectors() };
    match kind {
        OpKind::Mul => HierSelectors { op_m: 1, mul_family: 1, mul: 1, ..s },
        OpKind::Mulh => HierSelectors { op_m: 1, mul_family: 1, mulh: 1, ..s },
        OpKind::Mulhsu => HierSelectors { op_m: 1, mul_family: 1, mulhsu: 1, ..s },
        OpKind::Mulhu => HierSelectors { op_m: 1, mul_family: 1, mulhu: 1, ..s },
        OpKind::Div => HierSelectors { op_m: 1, div_family: 1, div: 1, ..s },
        OpKind::Divu => HierSelectors { op_m: 1, div_family: 1, divu: 1, ..s },
        OpKind::Rem => HierSelectors { op_m: 1, div_family: 1, rem: 1, ..s },
        OpKind::Remu => HierSelectors { op_m: 1, div_family: 1, remu: 1, ..s },
        _ => HierSelectors { op_base: 1, ..s },
    }
}

/// The selectors of an instruction: exactly the flags on its path down the
/// hierarchy are 1.
pub open spec fn selectors_of(instruction: Instruction) -> HierSelectors {
    let z = no_selectors();
    match instruction {
        Instruction::Lui(_) => HierSelectors { lui: 1, ..z },
        Instruction::Auipc(_) => HierSelectors { auipc: 1, ..z },
        Instruction::Jal(_) => HierSelectors { jal: 1, ..z },
        Instruction::Jalr(_) => HierSelectors { jalr: 1, ..z },
        Instruction::Branch(_, _) => HierSelectors { branch: 1, ..z },
        Instruction::Load(_, _) => HierSelectors { load: 1, ..z },
        Instruction::Store(_, _) => HierSelectors { store: 1, ..z },
        Instruction::OpImm(_, _) => HierSelectors { op_imm: 1, ..z },
        Instruction::Fence | Instruction::FenceI => HierSelectors { misc_mem: 1, ..z },
        Instruction::System(_) => HierSelectors { system: 1, ..z },
        Instruction::Op(kind, _) => op_selectors_of(kind),
    }
}

impl HierSelectors {
    /// Sum of the major-group selectors.
    pub open spec fn top_sum_of(self) -> int {
        self.lui + self.auipc + self.jal + self.jalr + self.branch + self.load + self.store
            + self.op_imm + self.op + self.misc_mem + self.system
    }

    /// Sum of the multiply leaves.
    pub open spec fn mul_leaf_sum_of(self) -> int {
        self.mul + self.mulh + self.mulhsu + self.mulhu
    }

    /// Sum of the divide leaves.
    pub open spec fn div_leaf_sum_of(self) -> int {
        self.div + self.divu + self.rem + self.remu
    }

    /// Sum of the eight M-operation leaves.
    pub open spec fn m_leaf_sum_of(self) -> int {
        self.mul_leaf_sum_of() + self.div_leaf_sum_of()
    }

    /// The sums that the well-formedness check computes all fit in a byte.
    pub open spec fn sums_fit(self) -> bool {
        &&& self.top_sum_of() <= 255
        &&& self.op_base + self.op_m <= 255
        &&& self.mul_family + self.div_family <= 255
        &&& self.mul_leaf_sum_of() <= 255
        &&& self.div_leaf_sum_of() <= 255
    }

    /// Exactly one major group is selected, and each selected inner node has
    /// exactly one selected child.
    pub open spec fn well_formed(self) -> bool {
        &&& self.top_sum_of() == 1
        &&& (self.op == 0 || self.op_base + self.op_m == 1)
        &&& (self.op_m == 0 || self.mul_family + self.div_family == 1)
        &&& (self.mul_family == 0 || self.mul_leaf_sum_of() == 1)
        &&& (self.div_family == 0 || self.div_leaf_sum_of() == 1)
        &&& (self.op_m == 0 || self.m_leaf_sum_of() == 1)
    }

    /// The selectors of `instruction`.
    pub fn from_instruction(instruction: &Instruction) -> (r: Self)
        ensures
            r == selectors_of(*instruction),
    {
        let mut selectors = Self::default();
        match instruction {
            Instruction::Lui(_) => selectors.lui = 1,
            Instruction::Auipc(_) => selectors.auipc = 1,
            Instruction::Jal(_) => selectors.jal = 1,
            Instruction::Jalr(_) => selectors.jalr = 1,
            Instruction::Branch(_, _) => selectors.branch = 1,
            Instruction::Load(_, _) => selectors.load = 1,
            Instruction::Store(_, _) => selectors.store = 1,
            Instruction::OpImm(_, _) => selectors.op_imm = 1,
            Instruction::Fence | Instruction::FenceI => selectors.misc_mem = 1,
            Instruction::System(_) => selectors.system = 1,
            Instruction::Op(op, _) => {
                selectors.op = 1;
                if op.is_m_extension() {
                    selectors.op_m = 1;
                    match op {
                        OpKind::Mul => {
                            selectors.mul_family = 1;
                            selectors.mul = 1;
                        },
                        OpKind::Mulh => {
                            selectors.mul_family = 1;
                            selectors.mulh = 1;
                        },
                        OpKind::Mulhsu => {
                            selectors.mul_family = 1;
                            selectors.mulhsu = 1;
                        },
                        OpKind::Mulhu => {
                            selectors.mul_family = 1;
                            selectors.mulhu = 1;
                        },
                        OpKind::Div => {
                            selectors.div_family = 1;
                            selectors.div = 1;
                        },
                        OpKind::Divu => {
                            selectors.div_family = 1;
                            selectors.divu = 1;
                        },
                        OpKind::Rem => {
                            selectors.div_family = 1;
                            selectors.rem = 1;
                        },
                        OpKind::Remu => {
                            selectors.div_family = 1;
                            selectors.remu = 1;
                        },
                        _ => {},
                    }
                } else {
                    selectors.op_base = 1;
                }
            },
        }
        selectors
    }

    /// Sum of the major-group selectors.
    pub fn top_sum(&self) -> (r: u8)
        requires
            self.top_sum_of() <= 255,
        ensures
            r == self.top_sum_of(),
    {
        self.lui + self.auipc + self.jal + self.jalr + self.branch + self.load + self.store
            + self.op_imm + self.op + self.misc_mem + self.system
    }

    /// Sum of the eight M-operation leaves.
    pub fn m_leaf_sum(&self) -> (r: u8)
        requires
            self.m_leaf_sum_of() <= 255,
        ensures
            r == self.m_leaf_sum_of(),
    {
        self.mul + self.mulh + self.mulhsu + self.mulhu + self.div + self.divu + self.rem + self.remu
    }

    pub fn is_m_extension(&self) -> (r: bool)
        ensures
            r == (self.op_m == 1),
    {
        self.op_m == 1
    }

    /// The selectors as a vector, in hierarchy order: the eleven groups, the
    /// base/M split, the two M families, then the eight M leaves.
    pub fn as_mle_vector(&self) -> (r: [u8; 23])
        ensures
            r@ == seq![
                self.lui, self.auipc, self.jal, self.jalr, self.branch, self.load, self.store,
                self.op_imm, self.op, self.misc_mem, self.system, self.op_base, self.op_m,
                self.mul_family, self.div_family, self.mul, self.mulh, self.mulhsu, self.mulhu,
                self.div, self.divu, self.rem, self.remu,
            ],
    {
        let r = [
            self.lui,
            self.auipc,
            self.jal,
            self.jalr,
            self.branch,
            self.load,
            self.store,
            self.op_imm,
            self.op,
            self.misc_mem,
            self.system,
            self.op_base,
            self.op_m,
            self.mul_family,
            self.div_family,
            self.mul,
            self.mulh,
            self.mulhsu,
            self.mulhu,
            self.div,
            self.divu,
            self.rem,
            self.remu,
        ];
        assert(r@ =~= seq![
            self.lui, self.auipc, self.jal, self.jalr, self.branch, self.load, self.store,
            self.op_imm, self.op, self.misc_mem, self.system, self.op_base, self.op_m,
            self.mul_family, self.div_family, self.mul, self.mulh, self.mulhsu, self.mulhu,
            self.div, self.divu, self.rem, self.remu,
        ]);
        r
    }

    /// Whether the selectors form one path down the hierarchy (see
    /// `well_formed`).
    pub fn is_well_formed(&self) -> (r: bool)
        requires
            self.sums_fit(),
        ensures
            r == self.well_formed(),
    {
        let op_split = self.op_base + self.op_m;
        let m_split = self.mul_family + self.div_family;
        let mul_leaf_sum = self.mul + self.mulh + self.mulhsu + self.mulhu;
        let div_leaf_sum = self.div + self.divu + self.rem + self.remu;
        self.top_sum() == 1 && (self.op == 0 || op_split == 1) && (self.op_m == 0 || m_split == 1)
            && (self.mul_family == 0 || mul_leaf_sum == 1) && (self.div_family == 0
            || div_leaf_sum == 1) && (self.op_m == 0 || mul_leaf_sum as u16 + div_leaf_sum as u16
            == 1)
    }
}

/// The selectors of every instruction are well formed: exactly one major
/// group is on, and one child under each selected node.
pub proof fn law_selectors_well_formed(instruction: Instruction)
    ensures
        selectors_of(instruction).sums_fit(),
        selectors_of(instruction).well_formed(),
        selectors_of(instruction).top_sum_of() == 1,
{
}

/// The M flag of an instruction's selectors is on exactly for M-extension
/// operations, and then exactly one of the eight M leaves is on.
pub proof fn law_selectors_m_flag(instruction: Instruction)
    ensures
        (selectors_of(instruction).op_m == 1) <==> (instruction matches Instruction::Op(kind, _)
            && is_m_op(kind)),
        selectors_of(instruction).op_m == 1 ==> selectors_of(instruction).m_leaf_sum_of() == 1,
{
}

} // verus!
