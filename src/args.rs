//! Function arguments and the return address, read and written through the
//! guest CPU under the architecture's calling convention.
use vstd::prelude::*;
use vstd::std_specs::convert::{FromSpec, IntoSpec};

use crate::error::{
    argument_error, conv_error, CallingConvention, QemuRWError, QemuRWErrorKind,
};
use crate::regs::{reg_of_index, GuestReg, Regs};

verus! {

/// The one calling convention this architecture passes arguments by.
pub const ARCH_CONVENTION: CallingConvention = CallingConvention::Cdecl;

/// How many arguments can be read: those held in `a0` to `a7`.
pub const READABLE_ARGS: i32 = 8;

/// How many arguments can be written: those held in `a0` and `a1`.
pub const WRITABLE_ARGS: i32 = 2;

/// Access to the registers of a guest CPU.
pub trait RegisterAccess {
    /// Whether `r` is an outcome that reading `reg` can have. Unless an
    /// implementation says more, any outcome can be.
    open spec fn read_gives(&self, reg: Regs, r: Result<GuestReg, QemuRWError>) -> bool {
        true
    }

    /// Whether `r` is an outcome that writing `val` to `reg` can have. Unless
    /// an implementation says more, any outcome can be.
    open spec fn write_gives(&self, reg: Regs, val: GuestReg, r: Result<(), QemuRWError>) -> bool {
        true
    }

    /// The current value of `reg`.
    fn read_reg(&self, reg: Regs) -> (r: Result<GuestReg, QemuRWError>)
        ensures
            self.read_gives(reg, r),
    ;

    /// Sets `reg` to `val`.
    fn write_reg(&self, reg: Regs, val: GuestReg) -> (r: Result<(), QemuRWError>)
        ensures
            self.write_gives(reg, val, r),
    ;
}

/// `r` hands on the accessor's outcome `o`: its error unchanged, or its
/// value converted to `T`.
pub open spec fn passed_on<T: From<GuestReg>>(
    o: Result<GuestReg, QemuRWError>,
    r: Result<T, QemuRWError>,
) -> bool {
    match o {
        Ok(v) => r is Ok && (T::obeys_from_spec() ==> r == Ok::<T, QemuRWError>(T::from_spec(v))),
        Err(e) => r == Err::<T, QemuRWError>(e),
    }
}

/// How many arguments an access of this kind reaches.
pub open spec fn arg_count(kind: QemuRWErrorKind) -> int {
    match kind {
        QemuRWErrorKind::Read => READABLE_ARGS as int,
        QemuRWErrorKind::Write => WRITABLE_ARGS as int,
    }
}

/// The register that holds argument `idx`: the argument registers follow
/// one another from `a0` on.
pub open spec fn arg_reg(kind: QemuRWErrorKind, idx: int) -> Option<Regs> {
    if 0 <= idx < arg_count(kind) {
        reg_of_index(Regs::A0.index() + idx)
    } else {
        None
    }
}

/// The register that an access of argument `idx` under `conv` goes to, or
/// the error it fails with: the convention is checked first, the index
/// after.
pub open spec fn resolve_arg(
    kind: QemuRWErrorKind,
    conv: CallingConvention,
    idx: i32,
) -> Result<Regs, QemuRWError> {
    if conv != ARCH_CONVENTION {
        Err(conv_error(kind, ARCH_CONVENTION, conv))
    } else {
        match arg_reg(kind, idx as int) {
            Some(reg) => Ok(reg),
            None => Err(argument_error(kind, idx)),
        }
    }
}

/// The register that holds argument `idx` for a read under `conv`.
pub fn read_argument_register(conv: CallingConvention, idx: u8) -> (r: Result<Regs, QemuRWError>)
    ensures
        r == resolve_arg(QemuRWErrorKind::Read, conv, idx as i32),
{
    QemuRWError::check_conv(QemuRWErrorKind::Read, ARCH_CONVENTION, conv)?;
    match idx {
        0 => Ok(Regs::A0),
        1 => Ok(Regs::A1),
        2 => Ok(Regs::A2),
        3 => Ok(Regs::A3),
        4 => Ok(Regs::A4),
        5 => Ok(Regs::A5),
        6 => Ok(Regs::A6),
        7 => Ok(Regs::A7),
        r => Err(QemuRWError::new_argument_error(QemuRWErrorKind::Read, r as i32)),
    }
}

/// The register that holds argument `idx` for a write under `conv`.
pub fn write_argument_register(conv: CallingConvention, idx: i32) -> (r: Result<Regs, QemuRWError>)
    ensures
        r == resolve_arg(QemuRWErrorKind::Write, conv, idx),
{
    QemuRWError::check_conv(QemuRWErrorKind::Write, ARCH_CONVENTION, conv)?;
    match idx {
        0 => Ok(Regs::A0),
        1 => Ok(Regs::A1),
        r => Err(QemuRWError::new_argument_error(QemuRWErrorKind::Write, r)),
    }
}

/// Reads argument `idx` of the current call under `conv`. A wrong
/// convention or index fails before any register is read; otherwise the CPU
/// reads the argument's register, and its error is returned unchanged or its
/// value converted to `T`.
pub fn read_function_argument<C: RegisterAccess, T: From<GuestReg>>(
    cpu: &C,
    conv: CallingConvention,
    idx: u8,
) -> (r: Result<T, QemuRWError>)
    ensures
        resolve_arg(QemuRWErrorKind::Read, conv, idx as i32) matches Err(e) ==> r == Err::<
            T,
            QemuRWError,
        >(e),
        resolve_arg(QemuRWErrorKind::Read, conv, idx as i32) matches Ok(reg) ==> exists|
            o: Result<GuestReg, QemuRWError>,
        | #[trigger] cpu.read_gives(reg, o) && passed_on(o, r),
{
    let reg = read_argument_register(conv, idx)?;
    let val = cpu.read_reg(reg)?;
    Ok(T::from(val))
}

/// Writes `val` to argument `idx` of the current call under `conv`. A wrong
/// convention or index fails before any register is written; otherwise the
/// CPU writes the argument's register, and its result is returned unchanged.
pub fn write_function_argument<C: RegisterAccess, T: Into<GuestReg>>(
    cpu: &C,
    conv: CallingConvention,
    idx: i32,
    val: T,
) -> (r: Result<(), QemuRWError>)
    ensures
        resolve_arg(QemuRWErrorKind::Write, conv, idx) matches Err(e) ==> r == Err::<(), QemuRWError>(e),
        resolve_arg(QemuRWErrorKind::Write, conv, idx) matches Ok(reg) ==> exists|v: GuestReg|
            (T::obeys_into_spec() ==> v == val.into_spec()) && #[trigger] cpu.write_gives(reg, v, r),
{
    let reg = write_argument_register(conv, idx)?;
    let v: GuestReg = val.into();
    cpu.write_reg(reg, v)
}

/// Reads the return address, held in the link register `ra`.
pub fn read_return_address<C: RegisterAccess, T: From<GuestReg>>(cpu: &C) -> (r: Result<
    T,
    QemuRWError,
>)
    ensures
        exists|o: Result<GuestReg, QemuRWError>| #[trigger]
            cpu.read_gives(Regs::Ra, o) && passed_on(o, r),
{
    let val = cpu.read_reg(Regs::Ra)?;
    Ok(T::from(val))
}

/// Writes the return address into the link register `ra`.
pub fn write_return_address<C: RegisterAccess, T: Into<GuestReg>>(
    cpu: &C,
    val: T,
) -> (r: Result<(), QemuRWError>)
    ensures
        exists|v: GuestReg|
            (T::obeys_into_spec() ==> v == val.into_spec()) && #[trigger] cpu.write_gives(Regs::Ra, v, r),
{
    let v: GuestReg = val.into();
    cpu.write_reg(Regs::Ra, v)
}

/// Under any convention but the architecture's, an access of any argument
/// fails with the mismatch, carrying both conventions.
pub proof fn lemma_wrong_convention_rejected(
    kind: QemuRWErrorKind,
    conv: CallingConvention,
    idx: i32,
)
    requires
        conv != ARCH_CONVENTION,
    ensures
        resolve_arg(kind, conv, idx) == Err::<Regs, QemuRWError>(
            conv_error(kind, ARCH_CONVENTION, conv),
        ),
{
}

/// Reads of arguments 0 to 7 go to `a0` to `a7` in order; a read of any
/// other index fails with that index.
pub proof fn lemma_read_arguments_in_order(idx: i32)
    ensures
        0 <= idx < READABLE_ARGS ==> resolve_arg(QemuRWErrorKind::Read, ARCH_CONVENTION, idx)
            == Ok::<Regs, QemuRWError>(reg_of_index(Regs::A0.index() + idx)->Some_0)
            && reg_of_index(Regs::A0.index() + idx) is Some,
        !(0 <= idx < READABLE_ARGS) ==> resolve_arg(QemuRWErrorKind::Read, ARCH_CONVENTION, idx)
            == Err::<Regs, QemuRWError>(argument_error(QemuRWErrorKind::Read, idx)),
{
}

/// Writes reach fewer arguments than reads: an index from 2 to 7 can be
/// read but not written, and every writable index is readable, in the same
/// register.
pub proof fn lemma_write_range_within_read_range(idx: i32)
    ensures
        WRITABLE_ARGS <= idx < READABLE_ARGS ==> resolve_arg(
            QemuRWErrorKind::Read,
            ARCH_CONVENTION,
            idx,
        ) is Ok && resolve_arg(QemuRWErrorKind::Write, ARCH_CONVENTION, idx) == Err::<
            Regs,
            QemuRWError,
        >(argument_error(QemuRWErrorKind::Write, idx)),
        resolve_arg(QemuRWErrorKind::Write, ARCH_CONVENTION, idx) is Ok ==> resolve_arg(
            QemuRWErrorKind::Read,
            ARCH_CONVENTION,
            idx,
        ) == resolve_arg(QemuRWErrorKind::Write, ARCH_CONVENTION, idx),
{
}

} // verus!
