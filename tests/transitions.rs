use trapframe::frame::{GeneralRegs, UserContext, FNCALL_TRAP_NUM};
use trapframe::layout::{HostPlatform, TlsLayout};
use trapframe::memory::Memory;
use trapframe::protocol::Machine;

const HOST_BASE: u64 = 0x10000;
const HOST_SP: u64 = 0x8000;
const HOST_RET: u64 = 0x4444;

/// A host thread on `platform`: TLS base set up, callee-saved registers
/// marked, and the return address of its call into `resume` on its stack.
fn host_machine(platform: HostPlatform) -> (Machine, TlsLayout) {
    let l = platform.tls_layout();
    let mut mem = Memory::new();
    mem.write(HOST_BASE + l.host_self, HOST_BASE - l.host_base_adjust);
    mem.write(HOST_SP, HOST_RET);
    let mut regs = GeneralRegs::zeroed();
    regs.rbx = 0xb0;
    regs.rbp = 0xb1;
    regs.r12 = 0xb2;
    regs.r13 = 0xb3;
    regs.r14 = 0xb4;
    regs.r15 = 0xb5;
    regs.rsp = HOST_SP;
    regs.fsbase = HOST_BASE;
    regs.gsbase = 0x77;
    (Machine { regs, mem }, l)
}

fn guest_frame() -> UserContext {
    let mut ctx = UserContext::new();
    ctx.general.rax = 1;
    ctx.general.rcx = 3;
    ctx.general.rdi = 6;
    ctx.general.r11 = 5;
    ctx.general.rsp = 0x20000;
    ctx.general.rip = 0x1000;
    ctx.general.rflags = 0x202;
    ctx
}

/// The guest calls the entry routine; its next instruction is at `ret`.
fn guest_calls(m: &mut Machine, ret: u64) {
    m.regs.rsp -= 8;
    m.mem.write(m.regs.rsp, ret);
}

fn assert_host_back(m: &Machine) {
    assert_eq!(m.regs.rbx, 0xb0);
    assert_eq!(m.regs.rbp, 0xb1);
    assert_eq!(m.regs.r12, 0xb2);
    assert_eq!(m.regs.r13, 0xb3);
    assert_eq!(m.regs.r14, 0xb4);
    assert_eq!(m.regs.r15, 0xb5);
    assert_eq!(m.regs.rsp, HOST_SP + 8);
    assert_eq!(m.regs.rip, HOST_RET);
    assert_eq!(m.regs.fsbase, HOST_BASE);
}

#[test]
fn new_context_is_zeroed() {
    let ctx = UserContext::new();
    assert_eq!(ctx.general, GeneralRegs::zeroed());
    assert_eq!(ctx.general.rip, 0);
    assert_eq!(ctx.trap_num, 0);
    assert_eq!(ctx.error_code, 0);
}

#[test]
fn complete_fncall_sets_sentinel() {
    let mut ctx = guest_frame();
    ctx.trap_num = 14;
    ctx.error_code = 7;
    ctx.complete_fncall();
    assert_eq!(ctx.trap_num, 0x100);
    assert_eq!(FNCALL_TRAP_NUM, 0x100);
    assert_eq!(ctx.error_code, 0);
    assert_eq!(ctx.general, guest_frame().general);
}

#[test]
fn platform_layouts() {
    let linux = HostPlatform::Linux.tls_layout();
    assert_eq!(linux.guest_self, 0);
    assert_eq!(linux.guest_host_stash, 48);
    assert_eq!(linux.host_self, 0);
    assert_eq!(linux.host_base_adjust, 0);
    assert_eq!(linux.host_stack, 64);
    assert_eq!(linux.initial_guest, 72);
    let mac = HostPlatform::MacOs.tls_layout();
    assert_eq!(mac.guest_host_stash, 48);
    assert_eq!(mac.host_base_adjust, 224);
    assert_eq!(mac.host_stack, 48);
    assert_eq!(mac.initial_guest, 240);
}

#[test]
fn memory_reads_zero_until_written() {
    let mut mem = Memory::new();
    assert_eq!(mem.read(0x40), 0);
    mem.write(0x40, 9);
    mem.write(0x48, 10);
    mem.write(0x40, 11);
    assert_eq!(mem.read(0x40), 11);
    assert_eq!(mem.read(0x48), 10);
    assert_eq!(mem.read(0x50), 0);
}

#[test]
fn resume_installs_frame_and_initial_block() {
    let (mut m, l) = host_machine(HostPlatform::Linux);
    let ctx = guest_frame();
    m.resume(&ctx, &l);
    let init = HOST_BASE + 72;
    assert_eq!(m.regs.fsbase, init);
    assert_eq!(m.regs.gsbase, 0x77);
    assert_eq!(m.regs.rax, 1);
    assert_eq!(m.regs.rcx, 3);
    assert_eq!(m.regs.rdi, 6);
    assert_eq!(m.regs.rsp, 0x20000);
    assert_eq!(m.regs.rip, 0x1000);
    assert_eq!(m.regs.rflags, 0x202);
    // the final jump goes through r11
    assert_eq!(m.regs.r11, 0x1000);
    assert_eq!(m.mem.read(init), init);
    assert_eq!(m.mem.read(init + 48), HOST_BASE);
    assert_eq!(m.mem.read(HOST_BASE + 64), HOST_SP - 56);
    assert_eq!(m.mem.read(HOST_SP - 8), 0xb5);
    assert_eq!(m.mem.read(HOST_SP - 48), 0xb0);
}

#[test]
fn resume_keeps_a_set_guest_base() {
    let (mut m, l) = host_machine(HostPlatform::Linux);
    let mut ctx = guest_frame();
    ctx.general.fsbase = 0x30000;
    m.resume(&ctx, &l);
    assert_eq!(m.regs.fsbase, 0x30000);
    assert_eq!(m.mem.read(0x30000 + 48), HOST_BASE);
    assert_eq!(m.mem.read(HOST_BASE + 72), 0);
}

#[test]
fn round_trip_captures_guest_state() {
    let (mut m, l) = host_machine(HostPlatform::Linux);
    let mut ctx = guest_frame();
    ctx.trap_num = 3;
    ctx.error_code = 9;
    m.resume(&ctx, &l);
    // the guest runs on, then calls back
    m.regs.rax = 42;
    m.regs.r9 = 99;
    m.regs.r11 = 0x66;
    guest_calls(&mut m, 0x1234);
    let back = m.enter(&l);
    assert_eq!(back.trap_num, 0x100);
    assert_eq!(back.error_code, 0);
    assert_eq!(back.general.rip, 0x1234);
    assert_eq!(back.general.rsp, 0x20000);
    assert_eq!(back.general.rax, 42);
    assert_eq!(back.general.r9, 99);
    assert_eq!(back.general.rcx, 3);
    assert_eq!(back.general.r11, 0x66);
    assert_eq!(back.general.rflags, 0x202);
    assert_eq!(back.general.fsbase, HOST_BASE + 72);
    assert_eq!(back.general.gsbase, 0);
    assert_host_back(&m);
}

#[test]
fn enter_keeps_guest_r11() {
    let (mut m, l) = host_machine(HostPlatform::Linux);
    m.resume(&guest_frame(), &l);
    m.regs.r11 = 0x5555;
    m.regs.rflags = 0x246;
    guest_calls(&mut m, 0x2000);
    let back = m.enter(&l);
    assert_eq!(back.general.r11, 0x5555);
    assert_eq!(back.general.rsp, 0x20000);
    assert_eq!(back.general.rflags, 0x246);
    // the two words below the return address hold the guest's r11 and flags
    assert_eq!(m.mem.read(0x20000 - 16), 0x5555);
    assert_eq!(m.mem.read(0x20000 - 24), 0x246);
    assert_host_back(&m);
}

#[test]
fn scratch_register_matches_when_r11_holds_rip() {
    let (mut m, l) = host_machine(HostPlatform::Linux);
    let mut ctx = guest_frame();
    ctx.general.r11 = ctx.general.rip;
    m.resume(&ctx, &l);
    let mut expected = ctx.general;
    expected.fsbase = HOST_BASE + 72;
    expected.gsbase = 0x77;
    assert_eq!(m.regs, expected);
}

#[test]
fn second_resume_keeps_initial_block() {
    let (mut m, l) = host_machine(HostPlatform::Linux);
    let ctx = guest_frame();
    m.resume(&ctx, &l);
    let init = HOST_BASE + 72;
    assert_eq!(m.mem.read(init), init);
    guest_calls(&mut m, 0x1100);
    m.enter(&l);
    m.regs.rsp = HOST_SP;
    m.resume(&ctx, &l);
    assert_eq!(m.mem.read(init), init);
    assert_eq!(m.regs.fsbase, init);
}

#[test]
fn tls_bases_kept_over_cycles() {
    for platform in [HostPlatform::Linux, HostPlatform::MacOs] {
        let (mut m, l) = host_machine(platform);
        let mut ctx = guest_frame();
        let init = HOST_BASE + l.initial_guest;
        for i in 0..5u64 {
            m.regs.rsp = HOST_SP;
            m.resume(&ctx, &l);
            assert_eq!(m.regs.fsbase, init);
            m.regs.rax = i;
            guest_calls(&mut m, 0x1000 + i);
            ctx = m.enter(&l);
            assert_host_back(&m);
            assert_eq!(ctx.general.fsbase, init);
            assert_eq!(ctx.general.rip, 0x1000 + i);
            assert_eq!(ctx.general.rax, i);
            // the host answers the request
            ctx.general.rax = 0;
        }
    }
}

#[test]
fn enter_falls_back_when_stash_is_empty() {
    let (mut m, l) = host_machine(HostPlatform::Linux);
    m.resume(&guest_frame(), &l);
    m.mem.write(HOST_BASE + 72 + 48, 0);
    guest_calls(&mut m, 0x1500);
    m.enter(&l);
    assert_eq!(m.regs.fsbase, HOST_BASE);
    assert_eq!(m.regs.rip, HOST_RET);
}

#[test]
fn threads_do_not_interfere() {
    fn run(m: &mut Machine, l: &TlsLayout, ctx: &UserContext, rax: u64) -> UserContext {
        m.resume(ctx, l);
        m.regs.rax = rax;
        guest_calls(m, 0x3000 + rax);
        m.enter(l)
    }
    let (mut a, la) = host_machine(HostPlatform::Linux);
    let (mut b, lb) = host_machine(HostPlatform::Linux);
    let mut fb = guest_frame();
    fb.general.fsbase = 0x50000;
    let fa = guest_frame();
    // interleaved
    a.resume(&fa, &la);
    b.resume(&fb, &lb);
    a.regs.rax = 1;
    b.regs.rax = 2;
    guest_calls(&mut b, 0x3002);
    guest_calls(&mut a, 0x3001);
    let ca = a.enter(&la);
    let cb = b.enter(&lb);
    // one after the other
    let (mut a2, _) = host_machine(HostPlatform::Linux);
    let (mut b2, _) = host_machine(HostPlatform::Linux);
    let ca2 = run(&mut a2, &la, &fa, 1);
    let cb2 = run(&mut b2, &lb, &fb, 2);
    assert_eq!(ca, ca2);
    assert_eq!(cb, cb2);
    assert_eq!(a.regs, a2.regs);
    assert_eq!(b.regs, b2.regs);
    assert_eq!(cb.general.fsbase, 0);
    assert_eq!(ca.general.fsbase, HOST_BASE + 72);
}
