//! The transition protocol on a word-level model of one hardware thread.
//!
//! `Machine::resume` hands the thread from the host to a guest context;
//! `Machine::enter` is what runs when the guest calls back into the host.
//! The live TLS base register is the `fsbase` field of the machine's
//! registers (on hosts whose runtime addresses TLS through `gs`, it stands
//! for that register). The host's callee-saved registers, and the frame
//! pointer it passed, travel on the host stack below the return address of
//! its call into `resume`.
use vstd::prelude::*;
use crate::frame::{GeneralRegs, UserContext, FNCALL_TRAP_NUM};
use crate::layout::TlsLayout;
use crate::memory::{word_at, Memory};

verus! {

/// Bytes of host stack taken by the six callee-saved registers and the
/// frame pointer pushed below them.
pub const HOST_SAVE_BYTES: u64 = 56;

/// One hardware thread: its registers and the memory it reaches.
pub struct Machine {
    pub regs: GeneralRegs,
    pub mem: Memory,
}

/// The host's TLS base, read through the host's self pointer.
pub open spec fn host_base_of(regs: GeneralRegs, mem: Map<u64, u64>, l: TlsLayout) -> u64 {
    word_at(mem, regs.fsbase.wrapping_add(l.host_self)).wrapping_add(l.host_base_adjust)
}

/// The guest TLS base that `resume` installs: the frame's, or, where the
/// frame holds none, the initial guest block of host `h`.
pub open spec fn installed_guest_base(frame: GeneralRegs, h: u64, l: TlsLayout) -> u64 {
    if frame.fsbase != 0 {
        frame.fsbase
    } else {
        h.wrapping_add(l.initial_guest)
    }
}

/// The words `resume` writes for host base `h`: the host's callee-saved
/// registers pushed below its stack pointer, then its frame-pointer argument
/// (`rdi`), the resulting stack pointer kept in the
/// host's stack slot, the guest's self pointer where the initial block is
/// used, and `h` kept in the guest's stash slot. Where two of them share an
/// address the later one stands.
pub open spec fn resume_writes(regs: GeneralRegs, h: u64, frame: GeneralRegs, l: TlsLayout) -> Map<
    u64,
    u64,
> {
    let sp = regs.rsp;
    let pushed = Map::empty().insert(sp.wrapping_sub(8), regs.r15).insert(
        sp.wrapping_sub(16),
        regs.r14,
    ).insert(sp.wrapping_sub(24), regs.r13).insert(sp.wrapping_sub(32), regs.r12).insert(
        sp.wrapping_sub(40),
        regs.rbp,
    ).insert(sp.wrapping_sub(48), regs.rbx).insert(sp.wrapping_sub(56), regs.rdi);
    let saved = pushed.insert(regs.fsbase.wrapping_add(l.host_stack), sp.wrapping_sub(56));
    let g = installed_guest_base(frame, h, l);
    let selfed = if frame.fsbase == 0 {
        saved.insert(g.wrapping_add(l.guest_self), g)
    } else {
        saved
    };
    selfed.insert(g.wrapping_add(l.guest_host_stash), h)
}

/// Memory after `resume`: the old memory overlaid with what it writes.
pub open spec fn resume_mem(
    regs: GeneralRegs,
    mem: Map<u64, u64>,
    frame: GeneralRegs,
    l: TlsLayout,
) -> Map<u64, u64> {
    mem.union_prefer_right(resume_writes(regs, host_base_of(regs, mem, l), frame, l))
}

/// Registers after `resume`: the frame's, with the guest TLS base installed,
/// the other segment base left as the host had it, and `r11` holding the
/// resumed instruction pointer, through which the final jump is made.
pub open spec fn resume_regs(
    regs: GeneralRegs,
    mem: Map<u64, u64>,
    frame: GeneralRegs,
    l: TlsLayout,
) -> GeneralRegs {
    GeneralRegs {
        r11: frame.rip,
        fsbase: installed_guest_base(frame, host_base_of(regs, mem, l), l),
        gsbase: regs.gsbase,
        ..frame
    }
}

/// Memory once `enter` has set its scratch register free: the guest's `r11`
/// and flags kept in the two words below the return address of its call.
pub open spec fn enter_mem(regs: GeneralRegs, mem: Map<u64, u64>) -> Map<u64, u64> {
    mem.insert(regs.rsp.wrapping_sub(8), regs.r11).insert(regs.rsp.wrapping_sub(16), regs.rflags)
}

/// The host's TLS base as the guest side finds it in `mem`: the stash slot,
/// or, where that is empty, the base whose initial guest block the guest's
/// self pointer names.
pub open spec fn host_base_from_guest(regs: GeneralRegs, mem: Map<u64, u64>, l: TlsLayout) -> u64 {
    let s = word_at(mem, regs.fsbase.wrapping_add(l.guest_host_stash));
    if s != 0 {
        s
    } else {
        word_at(mem, regs.fsbase.wrapping_add(l.guest_self)).wrapping_sub(l.initial_guest)
    }
}

/// The frame `enter` captures from the registers at its first instruction,
/// where the guest's call has just pushed its return address: the registers
/// as they were before the call, the return address as instruction pointer,
/// the guest's self pointer as TLS base, and no `gs` base.
pub open spec fn captured_regs(regs: GeneralRegs, mem: Map<u64, u64>, l: TlsLayout) -> GeneralRegs {
    GeneralRegs {
        rsp: regs.rsp.wrapping_add(8),
        rip: word_at(mem, regs.rsp),
        fsbase: word_at(enter_mem(regs, mem), regs.fsbase.wrapping_add(l.guest_self)),
        gsbase: 0,
        ..regs
    }
}

/// `after` is how the host finds its registers once `enter` returns into
/// it: callee-saved registers popped from the host stack kept in the host's
/// slot (above the frame pointer saved there), the return address popped
/// into the instruction pointer, and the host's TLS base installed. As after
/// any call, the caller-saved registers and flags are not promised.
pub open spec fn host_resumed(
    after: GeneralRegs,
    regs: GeneralRegs,
    mem: Map<u64, u64>,
    l: TlsLayout,
) -> bool {
    let m = enter_mem(regs, mem);
    let h = host_base_from_guest(regs, m, l);
    let s = word_at(m, h.wrapping_add(l.host_stack));
    &&& after.rbx == word_at(m, s.wrapping_add(8))
    &&& after.rbp == word_at(m, s.wrapping_add(16))
    &&& after.r12 == word_at(m, s.wrapping_add(24))
    &&& after.r13 == word_at(m, s.wrapping_add(32))
    &&& after.r14 == word_at(m, s.wrapping_add(40))
    &&& after.r15 == word_at(m, s.wrapping_add(48))
    &&& after.rip == word_at(m, s.wrapping_add(56))
    &&& after.rsp == s.wrapping_add(64)
    &&& after.fsbase == h
}

impl Machine {
    /// Host to guest: save the host's callee-saved registers and stack
    /// pointer, install the guest TLS base (falling back to the initial guest
    /// block where the frame holds none), stash the host's base in the guest's
    /// block, and load the frame's registers.
    pub fn resume(&mut self, ctx: &UserContext, layout: &TlsLayout)
        ensures
            final(self).regs == resume_regs(old(self).regs, old(self).mem@, ctx.general, *layout),
            final(self).mem@ == resume_mem(old(self).regs, old(self).mem@, ctx.general, *layout),
    {
        let l = *layout;
        let regs = self.regs;
        let h = self.mem.read(regs.fsbase.wrapping_add(l.host_self)).wrapping_add(
            l.host_base_adjust,
        );
        let sp = regs.rsp;
        self.mem.write(sp.wrapping_sub(8), regs.r15);
        self.mem.write(sp.wrapping_sub(16), regs.r14);
        self.mem.write(sp.wrapping_sub(24), regs.r13);
        self.mem.write(sp.wrapping_sub(32), regs.r12);
        self.mem.write(sp.wrapping_sub(40), regs.rbp);
        self.mem.write(sp.wrapping_sub(48), regs.rbx);
        self.mem.write(sp.wrapping_sub(HOST_SAVE_BYTES), regs.rdi);
        self.mem.write(regs.fsbase.wrapping_add(l.host_stack), sp.wrapping_sub(HOST_SAVE_BYTES));
        let frame = ctx.general;
        let g = if frame.fsbase != 0 {
            frame.fsbase
        } else {
            let init = h.wrapping_add(l.initial_guest);
            self.mem.write(init.wrapping_add(l.guest_self), init);
            init
        };
        self.mem.write(g.wrapping_add(l.guest_host_stash), h);
        self.regs = GeneralRegs { r11: frame.rip, fsbase: g, gsbase: regs.gsbase, ..frame };
        assert(self.mem@ =~= resume_mem(regs, old(self).mem@, frame, l));
    }

    /// Guest to host: keep the guest's `r11` and flags below its return
    /// address, capture the guest's registers into a new frame marked as a
    /// call-style transition, then restore the host's callee-saved registers,
    /// stack and TLS base, and return into the host.
    pub fn enter(&mut self, layout: &TlsLayout) -> (ctx: UserContext)
        ensures
            ctx.general == captured_regs(old(self).regs, old(self).mem@, *layout),
            ctx.trap_num == FNCALL_TRAP_NUM,
            ctx.error_code == 0,
            host_resumed(final(self).regs, old(self).regs, old(self).mem@, *layout),
            final(self).mem@ == enter_mem(old(self).regs, old(self).mem@),
    {
        let l = *layout;
        let regs = self.regs;
        let g = regs.fsbase;
        self.mem.write(regs.rsp.wrapping_sub(8), regs.r11);
        self.mem.write(regs.rsp.wrapping_sub(16), regs.rflags);
        let stash = self.mem.read(g.wrapping_add(l.guest_host_stash));
        let guest_self = self.mem.read(g.wrapping_add(l.guest_self));
        let h = if stash != 0 {
            stash
        } else {
            guest_self.wrapping_sub(l.initial_guest)
        };
        let s = self.mem.read(h.wrapping_add(l.host_stack));
        let frame = GeneralRegs {
            rsp: regs.rsp.wrapping_add(8),
            r11: self.mem.read(regs.rsp.wrapping_sub(8)),
            rflags: self.mem.read(regs.rsp.wrapping_sub(16)),
            rip: self.mem.read(regs.rsp),
            fsbase: guest_self,
            gsbase: 0,
            ..regs
        };
        self.regs = GeneralRegs {
            rbx: self.mem.read(s.wrapping_add(8)),
            rbp: self.mem.read(s.wrapping_add(16)),
            r12: self.mem.read(s.wrapping_add(24)),
            r13: self.mem.read(s.wrapping_add(32)),
            r14: self.mem.read(s.wrapping_add(40)),
            r15: self.mem.read(s.wrapping_add(48)),
            rip: self.mem.read(s.wrapping_add(HOST_SAVE_BYTES)),
            rsp: s.wrapping_add(64),
            fsbase: h,
            ..regs
        };
        let mut ctx = UserContext { general: frame, trap_num: 0, error_code: 0 };
        ctx.complete_fncall();
        ctx
    }
}

} // verus!
