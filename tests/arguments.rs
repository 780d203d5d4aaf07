use std::cell::RefCell;

use riscv64_regs::{
    read_argument_register, read_function_argument, read_return_address,
    write_argument_register, write_function_argument, write_return_address, CallingConvention,
    GuestReg, QemuRWError, QemuRWErrorCause, QemuRWErrorKind, RegisterAccess, Regs,
};

/// A guest CPU whose registers live in memory and which records every access.
struct FakeCpu {
    values: RefCell<[GuestReg; 33]>,
    reads: RefCell<Vec<Regs>>,
    writes: RefCell<Vec<(Regs, GuestReg)>>,
    failing: bool,
}

impl FakeCpu {
    fn with_args(args: &[GuestReg]) -> FakeCpu {
        let mut values = [0; 33];
        for (i, v) in args.iter().enumerate() {
            values[Regs::A0.to_index() as usize + i] = *v;
        }
        FakeCpu {
            values: RefCell::new(values),
            reads: RefCell::new(Vec::new()),
            writes: RefCell::new(Vec::new()),
            failing: false,
        }
    }
}

impl RegisterAccess for FakeCpu {
    fn read_reg(&self, reg: Regs) -> Result<GuestReg, QemuRWError> {
        self.reads.borrow_mut().push(reg);
        if self.failing {
            return Err(QemuRWError::new(
                QemuRWErrorKind::Read,
                QemuRWErrorCause::Reg(reg.to_index()),
            ));
        }
        Ok(self.values.borrow()[reg.to_index() as usize])
    }

    fn write_reg(&self, reg: Regs, val: GuestReg) -> Result<(), QemuRWError> {
        self.writes.borrow_mut().push((reg, val));
        if self.failing {
            return Err(QemuRWError::new(
                QemuRWErrorKind::Write,
                QemuRWErrorCause::Reg(reg.to_index()),
            ));
        }
        self.values.borrow_mut()[reg.to_index() as usize] = val;
        Ok(())
    }
}

/// A guest CPU that must never be touched.
struct UntouchableCpu;

impl RegisterAccess for UntouchableCpu {
    fn read_reg(&self, _reg: Regs) -> Result<GuestReg, QemuRWError> {
        panic!("a register was read");
    }

    fn write_reg(&self, _reg: Regs, _val: GuestReg) -> Result<(), QemuRWError> {
        panic!("a register was written");
    }
}

fn mismatch(kind: QemuRWErrorKind, given: CallingConvention) -> QemuRWError {
    QemuRWError::new(
        kind,
        QemuRWErrorCause::WrongCallingConvention { expected: CallingConvention::Cdecl, given },
    )
}

#[test]
fn wrong_convention_read_touches_no_register() {
    for conv in [CallingConvention::Stdcall, CallingConvention::Fastcall] {
        for idx in [0u8, 1, 7, 8, 200] {
            assert_eq!(
                read_function_argument::<_, GuestReg>(&UntouchableCpu, conv, idx),
                Err(mismatch(QemuRWErrorKind::Read, conv))
            );
        }
    }
}

#[test]
fn wrong_convention_write_touches_no_register() {
    assert_eq!(
        write_function_argument(&UntouchableCpu, CallingConvention::Fastcall, 0, 5u64),
        Err(mismatch(QemuRWErrorKind::Write, CallingConvention::Fastcall))
    );
}

#[test]
fn read_index_eight_is_invalid() {
    let expected = Err(QemuRWError::new_argument_error(QemuRWErrorKind::Read, 8));
    assert_eq!(read_function_argument::<_, GuestReg>(&UntouchableCpu, CallingConvention::Cdecl, 8), expected);
    assert_eq!(
        read_function_argument::<_, GuestReg>(&UntouchableCpu, CallingConvention::Cdecl, 255),
        Err(QemuRWError::new(QemuRWErrorKind::Read, QemuRWErrorCause::WrongArgument(255)))
    );
}

#[test]
fn read_indices_map_to_argument_registers_in_order() {
    let regs = [
        Regs::A0,
        Regs::A1,
        Regs::A2,
        Regs::A3,
        Regs::A4,
        Regs::A5,
        Regs::A6,
        Regs::A7,
    ];
    for (idx, reg) in regs.iter().enumerate() {
        assert_eq!(read_argument_register(CallingConvention::Cdecl, idx as u8), Ok(*reg));
    }
    let cpu = FakeCpu::with_args(&[10, 20, 30, 40, 50, 60, 70, 80]);
    for idx in 0..8u8 {
        assert_eq!(
            read_function_argument::<_, GuestReg>(&cpu, CallingConvention::Cdecl, idx),
            Ok(10 * (idx as GuestReg + 1))
        );
    }
    assert_eq!(*cpu.reads.borrow(), regs.to_vec());
}

#[test]
fn write_index_two_is_invalid_though_readable() {
    assert_eq!(
        write_function_argument(&UntouchableCpu, CallingConvention::Cdecl, 2, 1u64),
        Err(QemuRWError::new_argument_error(QemuRWErrorKind::Write, 2))
    );
    assert_eq!(read_argument_register(CallingConvention::Cdecl, 2), Ok(Regs::A2));
    for idx in [-1, 2, 7, 8, i32::MAX] {
        assert_eq!(
            write_argument_register(CallingConvention::Cdecl, idx),
            Err(QemuRWError::new(QemuRWErrorKind::Write, QemuRWErrorCause::WrongArgument(idx)))
        );
    }
}

#[test]
fn second_argument_reads_preloaded_value() {
    let cpu = FakeCpu::with_args(&[10, 20, 30, 40, 50, 60, 70, 80]);
    assert_eq!(read_function_argument::<_, GuestReg>(&cpu, CallingConvention::Cdecl, 1), Ok(20));
}

#[test]
fn writes_reach_first_two_arguments() {
    let cpu = FakeCpu::with_args(&[]);
    assert_eq!(write_function_argument(&cpu, CallingConvention::Cdecl, 0, 7u64), Ok(()));
    assert_eq!(write_function_argument(&cpu, CallingConvention::Cdecl, 1, 9u64), Ok(()));
    assert_eq!(*cpu.writes.borrow(), vec![(Regs::A0, 7), (Regs::A1, 9)]);
    assert_eq!(read_function_argument::<_, GuestReg>(&cpu, CallingConvention::Cdecl, 0), Ok(7));
    assert_eq!(read_function_argument::<_, GuestReg>(&cpu, CallingConvention::Cdecl, 1), Ok(9));
}

#[test]
fn narrower_values_widen_on_write() {
    let cpu = FakeCpu::with_args(&[]);
    assert_eq!(write_function_argument(&cpu, CallingConvention::Cdecl, 1, 0xffu8), Ok(()));
    assert_eq!(write_function_argument(&cpu, CallingConvention::Cdecl, 0, u32::MAX), Ok(()));
    assert_eq!(*cpu.writes.borrow(), vec![(Regs::A1, 0xff), (Regs::A0, 0xffff_ffff)]);
}

#[test]
fn accessor_errors_pass_through_unchanged() {
    let mut cpu = FakeCpu::with_args(&[1, 2, 3]);
    cpu.failing = true;
    assert_eq!(
        read_function_argument::<_, GuestReg>(&cpu, CallingConvention::Cdecl, 3),
        Err(QemuRWError::new(QemuRWErrorKind::Read, QemuRWErrorCause::Reg(13)))
    );
    assert_eq!(
        write_function_argument(&cpu, CallingConvention::Cdecl, 1, 4u64),
        Err(QemuRWError::new(QemuRWErrorKind::Write, QemuRWErrorCause::Reg(11)))
    );
}

#[test]
fn return_address_lives_in_ra() {
    let cpu = FakeCpu::with_args(&[]);
    assert_eq!(write_return_address(&cpu, 0x1000u64), Ok(()));
    assert_eq!(*cpu.writes.borrow(), vec![(Regs::Ra, 0x1000)]);
    assert_eq!(read_return_address::<_, GuestReg>(&cpu), Ok(0x1000));
    assert_eq!(*cpu.reads.borrow(), vec![Regs::Ra]);
}

#[test]
fn check_conv_accepts_only_the_expected_convention() {
    assert_eq!(
        QemuRWError::check_conv(
            QemuRWErrorKind::Read,
            CallingConvention::Cdecl,
            CallingConvention::Cdecl
        ),
        Ok(())
    );
    assert_eq!(
        QemuRWError::check_conv(
            QemuRWErrorKind::Write,
            CallingConvention::Cdecl,
            CallingConvention::Stdcall
        ),
        Err(mismatch(QemuRWErrorKind::Write, CallingConvention::Stdcall))
    );
}

#[test]
fn reads_convert_to_wider_types() {
    let cpu = FakeCpu::with_args(&[10, u64::MAX]);
    assert_eq!(
        read_function_argument::<_, u128>(&cpu, CallingConvention::Cdecl, 1),
        Ok(u64::MAX as u128)
    );
}
