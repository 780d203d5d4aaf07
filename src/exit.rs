//! The registers that carry the exit protocol's values.
use vstd::prelude::*;

use crate::regs::Regs;

verus! {

/// The roles of the values a guest passes when it exits to the host.
#[derive(Clone, Copy, Debug, PartialEq, Eq, Structural)]
pub enum ExitArgs {
    Ret,
    Cmd,
    Arg1,
    Arg2,
    Arg3,
    Arg4,
    Arg5,
    Arg6,
}

/// Every exit slot.
pub open spec fn exit_slots() -> Set<ExitArgs> {
    set![
        ExitArgs::Ret,
        ExitArgs::Cmd,
        ExitArgs::Arg1,
        ExitArgs::Arg2,
        ExitArgs::Arg3,
        ExitArgs::Arg4,
        ExitArgs::Arg5,
        ExitArgs::Arg6,
    ]
}

/// The register assigned to an exit slot: the result goes back in `a0`, the
/// command comes in `a7` as a system call's number does, and the arguments
/// follow in `a1` to `a6`. No two slots share a register.
pub open spec fn exit_reg(slot: ExitArgs) -> Regs {
    match slot {
        ExitArgs::Ret => Regs::A0,
        ExitArgs::Cmd => Regs::A7,
        ExitArgs::Arg1 => Regs::A1,
        ExitArgs::Arg2 => Regs::A2,
        ExitArgs::Arg3 => Regs::A3,
        ExitArgs::Arg4 => Regs::A4,
        ExitArgs::Arg5 => Regs::A5,
        ExitArgs::Arg6 => Regs::A6,
    }
}

/// The assignment of every exit slot to its register.
pub open spec fn exit_reg_map() -> Map<ExitArgs, Regs> {
    Map::new(|slot: ExitArgs| exit_slots().contains(slot), |slot: ExitArgs| exit_reg(slot))
}

/// A register for each exit slot.
#[derive(Clone, Copy, Debug, PartialEq, Eq, Structural)]
pub struct ExitArchRegs {
    ret: Regs,
    cmd: Regs,
    arg1: Regs,
    arg2: Regs,
    arg3: Regs,
    arg4: Regs,
    arg5: Regs,
    arg6: Regs,
}

impl ExitArchRegs {
    /// The register this table holds for `slot`.
    pub closed spec fn reg_of(self, slot: ExitArgs) -> Regs {
        match slot {
            ExitArgs::Ret => self.ret,
            ExitArgs::Cmd => self.cmd,
            ExitArgs::Arg1 => self.arg1,
            ExitArgs::Arg2 => self.arg2,
            ExitArgs::Arg3 => self.arg3,
            ExitArgs::Arg4 => self.arg4,
            ExitArgs::Arg5 => self.arg5,
            ExitArgs::Arg6 => self.arg6,
        }
    }

    /// The register assigned to `slot`.
    pub fn get(&self, slot: ExitArgs) -> (r: Regs)
        ensures
            r == self@[slot],
    {
        match slot {
            ExitArgs::Ret => self.ret,
            ExitArgs::Cmd => self.cmd,
            ExitArgs::Arg1 => self.arg1,
            ExitArgs::Arg2 => self.arg2,
            ExitArgs::Arg3 => self.arg3,
            ExitArgs::Arg4 => self.arg4,
            ExitArgs::Arg5 => self.arg5,
            ExitArgs::Arg6 => self.arg6,
        }
    }
}

impl View for ExitArchRegs {
    type V = Map<ExitArgs, Regs>;

    closed spec fn view(&self) -> Map<ExitArgs, Regs> {
        Map::new(|slot: ExitArgs| exit_slots().contains(slot), |slot: ExitArgs| self.reg_of(slot))
    }
}

/// The register of each exit slot on this architecture. The table is fixed,
/// so every call returns the same one.
pub fn get_exit_arch_regs() -> (r: ExitArchRegs)
    ensures
        r@ == exit_reg_map(),
        forall|slot: ExitArgs| #[trigger] r@.contains_key(slot),
        forall|s: ExitArgs, t: ExitArgs| s != t ==> #[trigger] r@[s] != #[trigger] r@[t],
{
    let r = ExitArchRegs {
        ret: Regs::A0,
        cmd: Regs::A7,
        arg1: Regs::A1,
        arg2: Regs::A2,
        arg3: Regs::A3,
        arg4: Regs::A4,
        arg5: Regs::A5,
        arg6: Regs::A6,
    };
    assert(r@ =~= exit_reg_map());
    r
}

/// The table of exit registers covers all eight slots with eight distinct
/// registers, and any two tables obtained from `get_exit_arch_regs` are the
/// same mapping.
pub proof fn lemma_exit_arch_regs_total_and_stable(a: ExitArchRegs, b: ExitArchRegs)
    requires
        a@ == exit_reg_map(),
        b@ == exit_reg_map(),
    ensures
        a@ == b@,
        forall|slot: ExitArgs| #[trigger] a@.contains_key(slot),
        a@.dom().len() == 8,
        forall|s: ExitArgs, t: ExitArgs| s != t ==> #[trigger] a@[s] != #[trigger] a@[t],
{
    assert(a@.dom() =~= exit_slots());
    assert(exit_slots().len() == 8);
}

} // verus!
