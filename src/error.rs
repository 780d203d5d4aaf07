//! Calling conventions and the errors of register reads and writes.
use vstd::prelude::*;

verus! {

/// An argument-passing scheme that a caller may ask arguments to be read by.
#[derive(Clone, Copy, Debug, PartialEq, Eq, Structural)]
pub enum CallingConvention {
    Cdecl,
    Stdcall,
    Fastcall,
}

/// Whether a failed access was a read or a write.
#[derive(Clone, Copy, Debug, PartialEq, Eq, Structural)]
pub enum QemuRWErrorKind {
    Read,
    Write,
}

/// What made a register access fail.
#[derive(Clone, Copy, Debug, PartialEq, Eq, Structural)]
pub enum QemuRWErrorCause {
    /// The caller asked for `given`, but only `expected` is supported.
    WrongCallingConvention { expected: CallingConvention, given: CallingConvention },
    /// The argument index is outside the supported range.
    WrongArgument(i32),
    /// The guest CPU could not access the register with this index.
    Reg(i32),
    /// No guest CPU was available to access.
    CurrentCpuNotFound,
}

/// A failed register access.
#[derive(Clone, Copy, Debug, PartialEq, Eq, Structural)]
pub struct QemuRWError {
    pub kind: QemuRWErrorKind,
    pub cause: QemuRWErrorCause,
}

/// The error of asking for convention `given` where `expected` is the one
/// supported.
pub open spec fn conv_error(
    kind: QemuRWErrorKind,
    expected: CallingConvention,
    given: CallingConvention,
) -> QemuRWError {
    QemuRWError {
        kind,
        cause: QemuRWErrorCause::WrongCallingConvention { expected, given },
    }
}

/// The error of asking for argument `idx` where it is not supported.
pub open spec fn argument_error(kind: QemuRWErrorKind, idx: i32) -> QemuRWError {
    QemuRWError { kind, cause: QemuRWErrorCause::WrongArgument(idx) }
}

impl QemuRWError {
    /// An error of the given kind and cause.
    pub fn new(kind: QemuRWErrorKind, cause: QemuRWErrorCause) -> (r: QemuRWError)
        ensures
            r == (QemuRWError { kind, cause }),
    {
        QemuRWError { kind, cause }
    }

    /// The error for an unsupported argument index.
    pub fn new_argument_error(kind: QemuRWErrorKind, idx: i32) -> (r: QemuRWError)
        ensures
            r == argument_error(kind, idx),
    {
        QemuRWError::new(kind, QemuRWErrorCause::WrongArgument(idx))
    }

    /// Succeeds when `given` is the `expected` convention; otherwise fails
    /// with an error that carries both.
    pub fn check_conv(
        kind: QemuRWErrorKind,
        expected: CallingConvention,
        given: CallingConvention,
    ) -> (r: Result<(), QemuRWError>)
        ensures
            expected == given ==> r == Ok::<(), QemuRWError>(()),
            expected != given ==> r == Err::<(), QemuRWError>(conv_error(kind, expected, given)),
    {
        if expected != given {
            Err(QemuRWError::new(
                kind,
                QemuRWErrorCause::WrongCallingConvention { expected, given },
            ))
        } else {
            Ok(())
        }
    }
}

} // verus!
