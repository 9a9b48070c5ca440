//! The trap frame: a guest's register file plus the reason for the transition.
use vstd::prelude::*;

verus! {

/// Trap number recorded for a transition that arrived through the call-style
/// entry routine.
pub const FNCALL_TRAP_NUM: usize = 0x100;

/// General-purpose registers of the guest, in the order the transition
/// routines push and pop them. The order is part of the binary contract with
/// those routines: `fsbase` is the twentieth word but one, `gsbase` the last.
#[derive(Clone, Copy, Debug, PartialEq, Eq, Structural)]
pub struct GeneralRegs {
    pub rax: u64,
    pub rbx: u64,
    pub rcx: u64,
    pub rdx: u64,
    pub rsi: u64,
    pub rdi: u64,
    pub rbp: u64,
    pub rsp: u64,
    pub r8: u64,
    pub r9: u64,
    pub r10: u64,
    pub r11: u64,
    pub r12: u64,
    pub r13: u64,
    pub r14: u64,
    pub r15: u64,
    pub rip: u64,
    pub rflags: u64,
    pub fsbase: u64,
    pub gsbase: u64,
}

/// A guest context: its registers and why it last left guest mode.
#[derive(Clone, Copy, Debug, PartialEq, Eq, Structural)]
pub struct UserContext {
    pub general: GeneralRegs,
    pub trap_num: usize,
    pub error_code: usize,
}

pub open spec fn zero_regs() -> GeneralRegs {
    GeneralRegs {
        rax: 0,
        rbx: 0,
        rcx: 0,
        rdx: 0,
        rsi: 0,
        rdi: 0,
        rbp: 0,
        rsp: 0,
        r8: 0,
        r9: 0,
        r10: 0,
        r11: 0,
        r12: 0,
        r13: 0,
        r14: 0,
        r15: 0,
        rip: 0,
        rflags: 0,
        fsbase: 0,
        gsbase: 0,
    }
}

impl GeneralRegs {
    /// All registers zero.
    pub fn zeroed() -> (r: GeneralRegs)
        ensures
            r == zero_regs(),
    {
        GeneralRegs {
            rax: 0,
            rbx: 0,
            rcx: 0,
            rdx: 0,
            rsi: 0,
            rdi: 0,
            rbp: 0,
            rsp: 0,
            r8: 0,
            r9: 0,
            r10: 0,
            r11: 0,
            r12: 0,
            r13: 0,
            r14: 0,
            r15: 0,
            rip: 0,
            rflags: 0,
            fsbase: 0,
            gsbase: 0,
        }
    }
}

impl UserContext {
    /// A zeroed context.
    pub fn new() -> (r: UserContext)
        ensures
            r.general == zero_regs(),
            r.trap_num == 0,
            r.error_code == 0,
    {
        UserContext { general: GeneralRegs::zeroed(), trap_num: 0, error_code: 0 }
    }

    /// Records that the guest came back through the call-style entry: the
    /// trap number becomes the fixed sentinel and the error code zero, and the
    /// registers are left as they are.
    pub fn complete_fncall(&mut self)
        ensures
            final(self).general == old(self).general,
            final(self).trap_num == FNCALL_TRAP_NUM,
            final(self).error_code == 0,
    {
        self.trap_num = FNCALL_TRAP_NUM;
        self.error_code = 0;
    }
}

} // verus!
