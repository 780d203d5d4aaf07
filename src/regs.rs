//! Register identities of the RISC-V 64 guest and their native indices.
use vstd::prelude::*;

verus! {

/// The machine word that carries a register's value to and from the guest CPU.
pub type GuestReg = u64;

/// Every register of the guest, in native order, followed by the program
/// counter.
#[derive(Clone, Copy, Debug, PartialEq, Eq, Structural)]
pub enum Regs {
    Zero,
    Ra,
    Sp,
    Gp,
    Tp,
    T0,
    T1,
    T2,
    S0,
    S1,
    A0,
    A1,
    A2,
    A3,
    A4,
    A5,
    A6,
    A7,
    S2,
    S3,
    S4,
    S5,
    S6,
    S7,
    S8,
    S9,
    S10,
    S11,
    T3,
    T4,
    T5,
    T6,
    /// Only for reading and writing the program counter: it lies past the
    /// native numbering of the general registers.
    Pc,
}

/// The largest valid register index (the program counter's).
pub const PC_INDEX: i32 = 32;

/// Whether `i` is the index of some register.
pub open spec fn valid_index(i: int) -> bool {
    0 <= i <= PC_INDEX
}

/// The register whose native index is `i`, if any.
pub open spec fn reg_of_index(i: int) -> Option<Regs> {
    if i == 0 { Some(Regs::Zero) }
    else if i == 1 { Some(Regs::Ra) }
    else if i == 2 { Some(Regs::Sp) }
    else if i == 3 { Some(Regs::Gp) }
    else if i == 4 { Some(Regs::Tp) }
    else if i == 5 { Some(Regs::T0) }
    else if i == 6 { Some(Regs::T1) }
    else if i == 7 { Some(Regs::T2) }
    else if i == 8 { Some(Regs::S0) }
    else if i == 9 { Some(Regs::S1) }
    else if i == 10 { Some(Regs::A0) }
    else if i == 11 { Some(Regs::A1) }
    else if i == 12 { Some(Regs::A2) }
    else if i == 13 { Some(Regs::A3) }
    else if i == 14 { Some(Regs::A4) }
    else if i == 15 { Some(Regs::A5) }
    else if i == 16 { Some(Regs::A6) }
    else if i == 17 { Some(Regs::A7) }
    else if i == 18 { Some(Regs::S2) }
    else if i == 19 { Some(Regs::S3) }
    else if i == 20 { Some(Regs::S4) }
    else if i == 21 { Some(Regs::S5) }
    else if i == 22 { Some(Regs::S6) }
    else if i == 23 { Some(Regs::S7) }
    else if i == 24 { Some(Regs::S8) }
    else if i == 25 { Some(Regs::S9) }
    else if i == 26 { Some(Regs::S10) }
    else if i == 27 { Some(Regs::S11) }
    else if i == 28 { Some(Regs::T3) }
    else if i == 29 { Some(Regs::T4) }
    else if i == 30 { Some(Regs::T5) }
    else if i == 31 { Some(Regs::T6) }
    else if i == 32 { Some(Regs::Pc) }
    else { None }
}

/// An integer that names no register.
#[derive(Clone, Copy, Debug, PartialEq, Eq, Structural)]
pub struct InvalidRegister {
    pub number: i32,
}

impl Regs {
    /// Alias of the frame pointer: the saved register `s0`.
    #[allow(non_upper_case_globals)]
    pub const Fp: Regs = Regs::S0;

    /// The native index of a register.
    pub open spec fn index(self) -> int {
        match self {
            Regs::Zero => 0,
            Regs::Ra => 1,
            Regs::Sp => 2,
            Regs::Gp => 3,
            Regs::Tp => 4,
            Regs::T0 => 5,
            Regs::T1 => 6,
            Regs::T2 => 7,
            Regs::S0 => 8,
            Regs::S1 => 9,
            Regs::A0 => 10,
            Regs::A1 => 11,
            Regs::A2 => 12,
            Regs::A3 => 13,
            Regs::A4 => 14,
            Regs::A5 => 15,
            Regs::A6 => 16,
            Regs::A7 => 17,
            Regs::S2 => 18,
            Regs::S3 => 19,
            Regs::S4 => 20,
            Regs::S5 => 21,
            Regs::S6 => 22,
            Regs::S7 => 23,
            Regs::S8 => 24,
            Regs::S9 => 25,
            Regs::S10 => 26,
            Regs::S11 => 27,
            Regs::T3 => 28,
            Regs::T4 => 29,
            Regs::T5 => 30,
            Regs::T6 => 31,
            Regs::Pc => 32,
        }
    }

    /// The native index of this register.
    pub fn to_index(self) -> (r: i32)
        ensures
            r == self.index(),
    {
        match self {
            Regs::Zero => 0,
            Regs::Ra => 1,
            Regs::Sp => 2,
            Regs::Gp => 3,
            Regs::Tp => 4,
            Regs::T0 => 5,
            Regs::T1 => 6,
            Regs::T2 => 7,
            Regs::S0 => 8,
            Regs::S1 => 9,
            Regs::A0 => 10,
            Regs::A1 => 11,
            Regs::A2 => 12,
            Regs::A3 => 13,
            Regs::A4 => 14,
            Regs::A5 => 15,
            Regs::A6 => 16,
            Regs::A7 => 17,
            Regs::S2 => 18,
            Regs::S3 => 19,
            Regs::S4 => 20,
            Regs::S5 => 21,
            Regs::S6 => 22,
            Regs::S7 => 23,
            Regs::S8 => 24,
            Regs::S9 => 25,
            Regs::S10 => 26,
            Regs::S11 => 27,
            Regs::T3 => 28,
            Regs::T4 => 29,
            Regs::T5 => 30,
            Regs::T6 => 31,
            Regs::Pc => 32,
        }
    }

    /// The register with native index `i`; fails with `InvalidRegister` when
    /// `i` names none.
    pub fn from_index(i: i32) -> (r: Result<Regs, InvalidRegister>)
        ensures
            r is Ok <==> valid_index(i as int),
            r matches Ok(reg) ==> reg.index() == i && reg_of_index(i as int) == Some(reg),
            r is Err ==> r == Err::<Regs, InvalidRegister>(InvalidRegister { number: i }),
    {
        match i {
            0 => Ok(Regs::Zero),
            1 => Ok(Regs::Ra),
            2 => Ok(Regs::Sp),
            3 => Ok(Regs::Gp),
            4 => Ok(Regs::Tp),
            5 => Ok(Regs::T0),
            6 => Ok(Regs::T1),
            7 => Ok(Regs::T2),
            8 => Ok(Regs::S0),
            9 => Ok(Regs::S1),
            10 => Ok(Regs::A0),
            11 => Ok(Regs::A1),
            12 => Ok(Regs::A2),
            13 => Ok(Regs::A3),
            14 => Ok(Regs::A4),
            15 => Ok(Regs::A5),
            16 => Ok(Regs::A6),
            17 => Ok(Regs::A7),
            18 => Ok(Regs::S2),
            19 => Ok(Regs::S3),
            20 => Ok(Regs::S4),
            21 => Ok(Regs::S5),
            22 => Ok(Regs::S6),
            23 => Ok(Regs::S7),
            24 => Ok(Regs::S8),
            25 => Ok(Regs::S9),
            26 => Ok(Regs::S10),
            27 => Ok(Regs::S11),
            28 => Ok(Regs::T3),
            29 => Ok(Regs::T4),
            30 => Ok(Regs::T5),
            31 => Ok(Regs::T6),
            32 => Ok(Regs::Pc),
            _ => Err(InvalidRegister { number: i }),
        }
    }

    /// All registers, in the order of their native indices.
    pub fn all() -> (r: Vec<Regs>)
        ensures
            r@.len() == PC_INDEX + 1,
            forall|j: int| 0 <= j < r@.len() ==> (#[trigger] r@[j]).index() == j,
    {
        let mut r: Vec<Regs> = Vec::new();
        let mut i: i32 = 0;
        while i <= PC_INDEX
            invariant
                0 <= i <= PC_INDEX + 1,
                r@.len() == i,
                forall|j: int| 0 <= j < r@.len() ==> (#[trigger] r@[j]).index() == j,
            decreases PC_INDEX + 1 - i,
        {
            match Regs::from_index(i) {
                Ok(reg) => r.push(reg),
                Err(_) => {},
            }
            i = i + 1;
        }
        r
    }
}

/// A valid index names a register, and that register's index is the one
/// it was named by.
pub proof fn lemma_index_round_trip(i: int)
    requires
        valid_index(i),
    ensures
        reg_of_index(i) is Some,
        reg_of_index(i)->Some_0.index() == i,
{
}

/// Every register has a valid index, and that index names the register.
pub proof fn lemma_register_round_trip(reg: Regs)
    ensures
        valid_index(reg.index()),
        reg_of_index(reg.index()) == Some(reg),
{
}

/// An integer outside the valid range is the index of no register.
pub proof fn lemma_invalid_index(i: int)
    requires
        !valid_index(i),
    ensures
        reg_of_index(i) is None,
        forall|reg: Regs| #[trigger] reg.index() != i,
{
}

/// Distinct registers have distinct indices.
pub proof fn lemma_index_injective(a: Regs, b: Regs)
    requires
        a.index() == b.index(),
    ensures
        a == b,
{
    lemma_register_round_trip(a);
    lemma_register_round_trip(b);
}

/// The frame-pointer alias is the register `s0` and carries its index.
pub proof fn lemma_fp_alias()
    ensures
        Regs::Fp == Regs::S0,
        Regs::Fp.index() == Regs::S0.index(),
        reg_of_index(Regs::Fp.index()) == Some(Regs::S0),
{
}

} // verus!
