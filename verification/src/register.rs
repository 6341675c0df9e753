//! Integer register names x0..x31.
use vstd::prelude::*;
use crate::error::DecodeError;

verus! {

/// One of the 32 integer registers.
#[derive(Clone, Copy, Debug, Default, Eq, Hash, Ord, PartialEq, PartialOrd)]
pub struct Register(u8);

impl Register {
    #[verifier::type_invariant]
    spec fn in_range(self) -> bool {
        self.0 < 32
    }

    /// The register's number.
    pub closed spec fn id(self) -> u8 {
        self.0
    }

    /// The register numbered `id` (meaningful for `id < 32`).
    pub closed spec fn of_id(id: u8) -> Register {
        Register(id)
    }

    /// A register is the one its number names.
    pub broadcast proof fn lemma_of_id_of_register(r: Register)
        ensures
            #[trigger] Register::of_id(r.id()) == r,
    {
    }

    /// The register named by `id` has number `id`.
    pub broadcast proof fn lemma_id_of_of_id(id: u8)
        ensures
            #[trigger] Register::of_id(id).id() == id,
    {
    }

    /// Register x0, hard-wired to zero.
    pub fn zero() -> (r: Register)
        ensures
            r.id() == 0,
    {
        Register(0)
    }

    pub fn new(index: u8) -> (r: Result<Register, DecodeError>)
        ensures
            match r {
                Ok(reg) => index < 32 && reg.id() == index,
                Err(e) => index >= 32 && e == DecodeError::InvalidRegister(index),
            },
    {
        if index < 32 {
            Ok(Register(index))
        } else {
            Err(DecodeError::InvalidRegister(index))
        }
    }

    /// The register named by the low five bits of `index`.
    pub fn from_u5(index: u8) -> (r: Register)
        ensures
            r.id() == index % 32,
    {
        assert((index & 0x1f) == index % 32) by (bit_vector);
        Register(index & 0x1f)
    }

    pub fn index(self) -> (r: u8)
        ensures
            r == self.id(),
            r < 32,
    {
        proof { use_type_invariant(&self); }
        self.0
    }

    /// Calling-convention name of the register.
    pub fn abi_name(self) -> (r: &'static str)
        ensures
            r == abi_name_of(self.id()),
    {
        match self.0 {
            0 => "zero",
            1 => "ra",
            2 => "sp",
            3 => "gp",
            4 => "tp",
            5 => "t0",
            6 => "t1",
            7 => "t2",
            8 => "s0",
            9 => "s1",
            10 => "a0",
            11 => "a1",
            12 => "a2",
            13 => "a3",
            14 => "a4",
            15 => "a5",
            16 => "a6",
            17 => "a7",
            18 => "s2",
            19 => "s3",
            20 => "s4",
            21 => "s5",
            22 => "s6",
            23 => "s7",
            24 => "s8",
            25 => "s9",
            26 => "s10",
            27 => "s11",
            28 => "t3",
            29 => "t4",
            30 => "t5",
            31 => "t6",
            _ => "x?",
        }
    }
}

/// The RISC-V calling-convention name of register `index`.
pub open spec fn abi_name_of(index: u8) -> &'static str {
    match index {
        0 => "zero",
        1 => "ra",
        2 => "sp",
        3 => "gp",
        4 => "tp",
        5 => "t0",
        6 => "t1",
        7 => "t2",
        8 => "s0",
        9 => "s1",
        10 => "a0",
        11 => "a1",
        12 => "a2",
        13 => "a3",
        14 => "a4",
        15 => "a5",
        16 => "a6",
        17 => "a7",
        18 => "s2",
        19 => "s3",
        20 => "s4",
        21 => "s5",
        22 => "s6",
        23 => "s7",
        24 => "s8",
        25 => "s9",
        26 => "s10",
        27 => "s11",
        28 => "t3",
        29 => "t4",
        30 => "t5",
        31 => "t6",
        _ => "x?",
    }
}

} // verus!
