//! Register model of the 64-bit RISC-V guest: register identities and their
//! native indices, the registers behind the exit protocol's slots, and the
//! calling-convention-aware access to function arguments.
pub mod args;
pub mod error;
pub mod exit;
pub mod regs;

pub use args::{
    read_argument_register, read_function_argument, read_return_address,
    write_argument_register, write_function_argument, write_return_address, RegisterAccess,
};
pub use error::{CallingConvention, QemuRWError, QemuRWErrorCause, QemuRWErrorKind};
pub use exit::{get_exit_arch_regs, ExitArchRegs, ExitArgs};
pub use regs::{GuestReg, InvalidRegister, Regs};
