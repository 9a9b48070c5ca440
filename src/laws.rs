//! What holds of the protocol across calls: round trips, the TLS bases kept
//! over any number of cycles, the initial guest block, and the independence
//! of threads.
use vstd::prelude::*;
use crate::frame::GeneralRegs;
use crate::layout::{TlsLayout, TLS_SLOT_LIMIT};
use crate::memory::word_at;
use crate::protocol::{
    captured_regs, enter_mem, host_base_from_guest, host_base_of, host_resumed, installed_guest_base, resume_mem, resume_regs,
    resume_writes, HOST_SAVE_BYTES,
};

verus! {

/// The general-purpose registers of `a` and `b` agree, `r11` aside.
pub open spec fn gprs_agree_except_r11(a: GeneralRegs, b: GeneralRegs) -> bool {
    &&& a.rax == b.rax
    &&& a.rbx == b.rbx
    &&& a.rcx == b.rcx
    &&& a.rdx == b.rdx
    &&& a.rsi == b.rsi
    &&& a.rdi == b.rdi
    &&& a.rbp == b.rbp
    &&& a.rsp == b.rsp
    &&& a.r8 == b.r8
    &&& a.r9 == b.r9
    &&& a.r10 == b.r10
    &&& a.r12 == b.r12
    &&& a.r13 == b.r13
    &&& a.r14 == b.r14
    &&& a.r15 == b.r15
}

/// All sixteen general-purpose registers of `a` and `b` agree.
pub open spec fn gprs_agree(a: GeneralRegs, b: GeneralRegs) -> bool {
    gprs_agree_except_r11(a, b) && a.r11 == b.r11
}

/// `a` lies outside the host's save area: the six saved registers below
/// `sp` and the return address at `sp`.
pub open spec fn outside_save_area(a: int, sp: u64) -> bool {
    a < sp - HOST_SAVE_BYTES || a > sp
}

/// Host TLS base `h`, guest TLS base `g` and host stack pointer `sp` are
/// placed so that no slot wraps and the slots the protocol uses are apart.
/// The guest block either is the initial one of `h` or shares no slot with it.
pub open spec fn placement_ok(l: TlsLayout, h: u64, g: u64, sp: u64) -> bool {
    &&& l.wf()
    &&& h != 0
    &&& h + TLS_SLOT_LIMIT <= u64::MAX
    &&& g + TLS_SLOT_LIMIT <= u64::MAX
    &&& HOST_SAVE_BYTES <= sp
    &&& sp + 8 <= u64::MAX
    &&& (g == h + l.initial_guest || {
        &&& g + l.guest_self != h + l.host_self
        &&& g + l.guest_self != h + l.host_stack
        &&& g + l.guest_host_stash != h + l.host_self
        &&& g + l.guest_host_stash != h + l.host_stack
    })
    &&& outside_save_area(h + l.host_self, sp)
    &&& outside_save_area(h + l.host_stack, sp)
    &&& outside_save_area(g + l.guest_self, sp)
    &&& outside_save_area(g + l.guest_host_stash, sp)
}

/// The words the protocol relies on while the guest runs: the host's self
/// and stack slots, the guest's self and stash slots, and the host's save
/// area.
pub open spec fn protocol_slot(a: u64, l: TlsLayout, h: u64, g: u64, sp: u64) -> bool {
    ||| a == h + l.host_self
    ||| a == h + l.host_stack
    ||| a == g + l.guest_self
    ||| a == g + l.guest_host_stash
    ||| !outside_save_area(a as int, sp)
}

/// The guest ran from `(r1, m1)` to `(r2, m2)` without moving its TLS base
/// register or touching a protocol slot.
pub open spec fn guest_ran(
    r1: GeneralRegs,
    m1: Map<u64, u64>,
    r2: GeneralRegs,
    m2: Map<u64, u64>,
    l: TlsLayout,
    h: u64,
    g: u64,
    sp: u64,
) -> bool {
    &&& r2.fsbase == r1.fsbase
    &&& forall|a: u64| protocol_slot(a, l, h, g, sp) ==> #[trigger] word_at(m2, a) == word_at(m1, a)
}

/// The two words `enter` uses below the guest's return address (the guest
/// stack pointer at the call being `r2.rsp`) are no protocol slot.
pub open spec fn entry_scratch_apart(r2: GeneralRegs, l: TlsLayout, h: u64, g: u64, sp: u64) -> bool {
    &&& !protocol_slot(r2.rsp.wrapping_sub(8), l, h, g, sp)
    &&& !protocol_slot(r2.rsp.wrapping_sub(16), l, h, g, sp)
}

/// A protocol slot holds, when `enter` reads it, what it held when the guest
/// started running.
proof fn lemma_slot_kept(
    r1: GeneralRegs,
    m1: Map<u64, u64>,
    r2: GeneralRegs,
    m2: Map<u64, u64>,
    l: TlsLayout,
    h: u64,
    g: u64,
    sp: u64,
    a: u64,
)
    requires
        guest_ran(r1, m1, r2, m2, l, h, g, sp),
        entry_scratch_apart(r2, l, h, g, sp),
        protocol_slot(a, l, h, g, sp),
    ensures
        word_at(enter_mem(r2, m2), a) == word_at(m1, a),
{
    assert(word_at(m2, a) == word_at(m1, a));
}

/// One resume from host state `(r0, m0)` with `frame`, a guest run to
/// `(r2, m2)`, and the enter that follows.
proof fn lemma_cycle(
    l: TlsLayout,
    r0: GeneralRegs,
    m0: Map<u64, u64>,
    frame: GeneralRegs,
    r2: GeneralRegs,
    m2: Map<u64, u64>,
)
    requires
        placement_ok(l, r0.fsbase, installed_guest_base(frame, r0.fsbase, l), r0.rsp),
        host_base_of(r0, m0, l) == r0.fsbase,
        guest_ran(
            resume_regs(r0, m0, frame, l),
            resume_mem(r0, m0, frame, l),
            r2,
            m2,
            l,
            r0.fsbase,
            installed_guest_base(frame, r0.fsbase, l),
            r0.rsp,
        ),
        entry_scratch_apart(r2, l, r0.fsbase, installed_guest_base(frame, r0.fsbase, l), r0.rsp),
    ensures
        ({
            let h = r0.fsbase;
            let g = installed_guest_base(frame, h, l);
            let me = enter_mem(r2, m2);
            &&& resume_regs(r0, m0, frame, l).fsbase == g
            &&& r2.fsbase == g
            &&& g != 0
            &&& (frame.fsbase != 0 ==> word_at(m0, (g + l.guest_self) as u64) == g) ==> word_at(
                me,
                (g + l.guest_self) as u64,
            ) == g
            &&& host_base_from_guest(r2, me, l) == h
        }),
        forall|back: GeneralRegs| #[trigger]
            host_resumed(back, r2, m2, l) ==> {
                &&& back.fsbase == r0.fsbase
                &&& back.rbx == r0.rbx
                &&& back.rbp == r0.rbp
                &&& back.r12 == r0.r12
                &&& back.r13 == r0.r13
                &&& back.r14 == r0.r14
                &&& back.r15 == r0.r15
                &&& back.rsp == r0.rsp + 8
                &&& back.rip == word_at(m0, r0.rsp)
            },
{
    let h = r0.fsbase;
    let g = installed_guest_base(frame, h, l);
    let sp = r0.rsp;
    let r1 = resume_regs(r0, m0, frame, l);
    let m1 = resume_mem(r0, m0, frame, l);
    lemma_slot_kept(r1, m1, r2, m2, l, h, g, sp, (g + l.guest_host_stash) as u64);
    lemma_slot_kept(r1, m1, r2, m2, l, h, g, sp, (h + l.host_stack) as u64);
    lemma_slot_kept(r1, m1, r2, m2, l, h, g, sp, (g + l.guest_self) as u64);
    lemma_slot_kept(r1, m1, r2, m2, l, h, g, sp, (sp - 48) as u64);
    lemma_slot_kept(r1, m1, r2, m2, l, h, g, sp, (sp - 40) as u64);
    lemma_slot_kept(r1, m1, r2, m2, l, h, g, sp, (sp - 32) as u64);
    lemma_slot_kept(r1, m1, r2, m2, l, h, g, sp, (sp - 24) as u64);
    lemma_slot_kept(r1, m1, r2, m2, l, h, g, sp, (sp - 16) as u64);
    lemma_slot_kept(r1, m1, r2, m2, l, h, g, sp, (sp - 8) as u64);
    lemma_slot_kept(r1, m1, r2, m2, l, h, g, sp, sp);
}

/// Round trip: after `resume` with any frame and a guest run that leaves the
/// protocol slots alone, the frame `enter` captures holds, as instruction
/// pointer, the return address of the guest's call, and every general-purpose
/// register, `r11` included, and the flags as the guest had them just before
/// that call. The host, for its part, is back as after an ordinary call:
/// callee-saved registers, stack pointer, return address and TLS base
/// restored.
pub proof fn lemma_round_trip(
    l: TlsLayout,
    r0: GeneralRegs,
    m0: Map<u64, u64>,
    frame: GeneralRegs,
    r2: GeneralRegs,
    m2: Map<u64, u64>,
    back: GeneralRegs,
)
    requires
        placement_ok(l, r0.fsbase, installed_guest_base(frame, r0.fsbase, l), r0.rsp),
        host_base_of(r0, m0, l) == r0.fsbase,
        guest_ran(
            resume_regs(r0, m0, frame, l),
            resume_mem(r0, m0, frame, l),
            r2,
            m2,
            l,
            r0.fsbase,
            installed_guest_base(frame, r0.fsbase, l),
            r0.rsp,
        ),
        entry_scratch_apart(r2, l, r0.fsbase, installed_guest_base(frame, r0.fsbase, l), r0.rsp),
        host_resumed(back, r2, m2, l),
    ensures
        ({
            let captured = captured_regs(r2, m2, l);
            let before_call = GeneralRegs { rsp: r2.rsp.wrapping_add(8), ..r2 };
            &&& captured.rip == word_at(m2, r2.rsp)
            &&& gprs_agree(captured, before_call)
            &&& captured.rflags == r2.rflags
        }),
        back.fsbase == r0.fsbase,
        back.rbx == r0.rbx,
        back.rbp == r0.rbp,
        back.r12 == r0.r12,
        back.r13 == r0.r13,
        back.r14 == r0.r14,
        back.r15 == r0.r15,
        back.rsp == r0.rsp + 8,
        back.rip == word_at(m0, r0.rsp),
{
    lemma_cycle(l, r0, m0, frame, r2, m2);
}

/// Registers after `resume`: every general-purpose register but `r11` is the
/// frame's; `r11` holds the resumed instruction pointer, so the guest sees
/// its whole register file unchanged exactly when the frame's `r11` already
/// equals its instruction pointer.
pub proof fn lemma_resume_scratch(l: TlsLayout, r0: GeneralRegs, m0: Map<u64, u64>, frame: GeneralRegs)
    ensures
        gprs_agree_except_r11(resume_regs(r0, m0, frame, l), frame),
        resume_regs(r0, m0, frame, l).rip == frame.rip,
        resume_regs(r0, m0, frame, l).rflags == frame.rflags,
        resume_regs(r0, m0, frame, l).r11 == frame.rip,
        frame.r11 == frame.rip ==> gprs_agree(resume_regs(r0, m0, frame, l), frame),
{
}

/// First transition: with a frame whose TLS base is zero, `resume` installs
/// the initial guest block of the host, which is not zero, and writes that
/// base into the block's self slot; a later `resume` with the same frame, on
/// the same host and with the slot as the first left it, leaves the slot as
/// it is.
pub proof fn lemma_initial_guest_block(
    l: TlsLayout,
    r0: GeneralRegs,
    m0: Map<u64, u64>,
    frame: GeneralRegs,
    r1: GeneralRegs,
    m1: Map<u64, u64>,
)
    requires
        frame.fsbase == 0,
        host_base_of(r0, m0, l) == r0.fsbase,
        placement_ok(l, r0.fsbase, (r0.fsbase + l.initial_guest) as u64, r0.rsp),
        r1.fsbase == r0.fsbase,
        host_base_of(r1, m1, l) == r1.fsbase,
        placement_ok(l, r1.fsbase, (r1.fsbase + l.initial_guest) as u64, r1.rsp),
    ensures
        ({
            let init = (r0.fsbase + l.initial_guest) as u64;
            let slot = (init + l.guest_self) as u64;
            &&& init != 0
            &&& resume_regs(r0, m0, frame, l).fsbase == init
            &&& word_at(resume_mem(r0, m0, frame, l), slot) == init
            &&& word_at(m1, slot) == init ==> word_at(resume_mem(r1, m1, frame, l), slot) == init
        }),
{
}

/// No protocol slot of the first thread (host base `ha`, guest base `ga`,
/// host stack pointer `spa`) is one of the second thread's.
pub open spec fn disjoint_threads(
    l: TlsLayout,
    ha: u64,
    ga: u64,
    spa: u64,
    hb: u64,
    gb: u64,
    spb: u64,
) -> bool {
    forall|a: u64| #[trigger] protocol_slot(a, l, ha, ga, spa) ==> !protocol_slot(a, l, hb, gb, spb)
}

/// Every word `resume` writes is one of the thread's protocol slots.
proof fn lemma_writes_in_slots(regs: GeneralRegs, frame: GeneralRegs, l: TlsLayout)
    requires
        placement_ok(l, regs.fsbase, installed_guest_base(frame, regs.fsbase, l), regs.rsp),
    ensures
        forall|a: u64| #[trigger]
            resume_writes(regs, regs.fsbase, frame, l).contains_key(a) ==> protocol_slot(
                a,
                l,
                regs.fsbase,
                installed_guest_base(frame, regs.fsbase, l),
                regs.rsp,
            ),
{
}

/// Two threads that share memory but no protocol slot do not disturb each
/// other: resuming one and then the other leaves the same memory as the
/// other order, and each thread's resume loads the same registers whether or
/// not the other resumed first.
pub proof fn lemma_threads_independent(
    l: TlsLayout,
    m: Map<u64, u64>,
    ra: GeneralRegs,
    fa: GeneralRegs,
    rb: GeneralRegs,
    fb: GeneralRegs,
)
    requires
        host_base_of(ra, m, l) == ra.fsbase,
        host_base_of(rb, m, l) == rb.fsbase,
        placement_ok(l, ra.fsbase, installed_guest_base(fa, ra.fsbase, l), ra.rsp),
        placement_ok(l, rb.fsbase, installed_guest_base(fb, rb.fsbase, l), rb.rsp),
        disjoint_threads(
            l,
            ra.fsbase,
            installed_guest_base(fa, ra.fsbase, l),
            ra.rsp,
            rb.fsbase,
            installed_guest_base(fb, rb.fsbase, l),
            rb.rsp,
        ),
    ensures
        resume_mem(rb, resume_mem(ra, m, fa, l), fb, l) == resume_mem(
            ra,
            resume_mem(rb, m, fb, l),
            fa,
            l,
        ),
        resume_regs(ra, resume_mem(rb, m, fb, l), fa, l) == resume_regs(ra, m, fa, l),
        resume_regs(rb, resume_mem(ra, m, fa, l), fb, l) == resume_regs(rb, m, fb, l),
{
    let ha = ra.fsbase;
    let hb = rb.fsbase;
    let ga = installed_guest_base(fa, ha, l);
    let gb = installed_guest_base(fb, hb, l);
    let wa = resume_writes(ra, ha, fa, l);
    let wb = resume_writes(rb, hb, fb, l);
    lemma_writes_in_slots(ra, fa, l);
    lemma_writes_in_slots(rb, fb, l);
    assert forall|a: u64| wa.contains_key(a) implies !wb.contains_key(a) by {
        assert(protocol_slot(a, l, ha, ga, ra.rsp));
    }
    assert(protocol_slot((ha + l.host_self) as u64, l, ha, ga, ra.rsp));
    assert(protocol_slot((hb + l.host_self) as u64, l, hb, gb, rb.rsp));
    assert(!wb.contains_key((ha + l.host_self) as u64));
    assert(!wa.contains_key((hb + l.host_self) as u64));
    assert(host_base_of(ra, m.union_prefer_right(wb), l) == ha);
    assert(host_base_of(rb, m.union_prefer_right(wa), l) == hb);
    assert(m.union_prefer_right(wa).union_prefer_right(wb) =~= m.union_prefer_right(
        wb,
    ).union_prefer_right(wa));
}

/// A thread's `enter` reads nothing another thread's `resume` writes: where
/// the two share no protocol slot and the guest's return address lies in
/// none of the other thread's slots, the frame captured and the host
/// registers restored are the same whether or not the other thread resumed
/// in between.
pub proof fn lemma_enter_unaffected_by_other_thread(
    l: TlsLayout,
    m: Map<u64, u64>,
    ra: GeneralRegs,
    fa: GeneralRegs,
    guest: GeneralRegs,
    rb: GeneralRegs,
    fb: GeneralRegs,
)
    requires
        placement_ok(l, ra.fsbase, installed_guest_base(fa, ra.fsbase, l), ra.rsp),
        placement_ok(l, rb.fsbase, installed_guest_base(fb, rb.fsbase, l), rb.rsp),
        disjoint_threads(
            l,
            ra.fsbase,
            installed_guest_base(fa, ra.fsbase, l),
            ra.rsp,
            rb.fsbase,
            installed_guest_base(fb, rb.fsbase, l),
            rb.rsp,
        ),
        host_base_of(rb, m, l) == rb.fsbase,
        guest.fsbase == installed_guest_base(fa, ra.fsbase, l),
        word_at(m, (guest.fsbase + l.guest_host_stash) as u64) == ra.fsbase,
        word_at(m, (ra.fsbase + l.host_stack) as u64) == ra.rsp - HOST_SAVE_BYTES,
        !protocol_slot(
            guest.rsp,
            l,
            rb.fsbase,
            installed_guest_base(fb, rb.fsbase, l),
            rb.rsp,
        ),
        entry_scratch_apart(guest, l, ra.fsbase, installed_guest_base(fa, ra.fsbase, l), ra.rsp),
    ensures
        captured_regs(guest, resume_mem(rb, m, fb, l), l) == captured_regs(guest, m, l),
        host_base_from_guest(guest, enter_mem(guest, resume_mem(rb, m, fb, l)), l)
            == host_base_from_guest(guest, enter_mem(guest, m), l),
        forall|back: GeneralRegs| #[trigger]
            host_resumed(back, guest, resume_mem(rb, m, fb, l), l) == host_resumed(
                back,
                guest,
                m,
                l,
            ),
{
    let ha = ra.fsbase;
    let ga = installed_guest_base(fa, ha, l);
    let spa = ra.rsp;
    let wb = resume_writes(rb, rb.fsbase, fb, l);
    let hb = rb.fsbase;
    let gb = installed_guest_base(fb, hb, l);
    lemma_writes_in_slots(rb, fb, l);
    assert forall|a: u64| protocol_slot(a, l, ha, ga, spa) implies !wb.contains_key(a) by {
        assert(!protocol_slot(a, l, hb, gb, rb.rsp));
    }
    assert(protocol_slot((ga + l.guest_self) as u64, l, ha, ga, spa));
    assert(protocol_slot((ga + l.guest_host_stash) as u64, l, ha, ga, spa));
    assert(protocol_slot((ha + l.host_stack) as u64, l, ha, ga, spa));
    assert(protocol_slot((spa - 48) as u64, l, ha, ga, spa));
    assert(protocol_slot((spa - 40) as u64, l, ha, ga, spa));
    assert(protocol_slot((spa - 32) as u64, l, ha, ga, spa));
    assert(protocol_slot((spa - 24) as u64, l, ha, ga, spa));
    assert(protocol_slot((spa - 16) as u64, l, ha, ga, spa));
    assert(protocol_slot((spa - 8) as u64, l, ha, ga, spa));
    assert(protocol_slot(spa, l, ha, ga, spa));
    let mb = resume_mem(rb, m, fb, l);
    assert(host_base_from_guest(guest, enter_mem(guest, mb), l) == ha);
    assert(host_base_from_guest(guest, enter_mem(guest, m), l) == ha);
    assert forall|back: GeneralRegs| #[trigger]
        host_resumed(back, guest, mb, l) == host_resumed(back, guest, m, l) by {}
}

/// A run of `n` cycles from host TLS base `h`: the host resumes
/// `frames[i]` from `(host_regs[i], host_mem[i])`, the guest runs to
/// `(guest_regs[i], guest_mem[i])` without touching a protocol slot, and the
/// guest calls back. Between cycles the host keeps its TLS base register and
/// self pointer, leaves the guest's self slot alone, and hands back the
/// captured frame's TLS base unchanged.
pub open spec fn cycles(
    l: TlsLayout,
    host_regs: Seq<GeneralRegs>,
    host_mem: Seq<Map<u64, u64>>,
    frames: Seq<GeneralRegs>,
    guest_regs: Seq<GeneralRegs>,
    guest_mem: Seq<Map<u64, u64>>,
) -> bool {
    let n = frames.len();
    let h = host_regs[0].fsbase;
    let g = installed_guest_base(frames[0], h, l);
    &&& n > 0
    &&& host_regs.len() == n
    &&& host_mem.len() == n
    &&& guest_regs.len() == n
    &&& guest_mem.len() == n
    &&& frames[0].fsbase != 0 ==> word_at(host_mem[0], (g + l.guest_self) as u64) == g
    &&& forall|i: int|
        0 <= i < n ==> {
            &&& #[trigger] host_regs[i].fsbase == h
            &&& host_base_of(host_regs[i], host_mem[i], l) == h
            &&& placement_ok(l, h, g, host_regs[i].rsp)
            &&& entry_scratch_apart(guest_regs[i], l, h, g, host_regs[i].rsp)
            &&& guest_ran(
                resume_regs(host_regs[i], host_mem[i], frames[i], l),
                resume_mem(host_regs[i], host_mem[i], frames[i], l),
                guest_regs[i],
                guest_mem[i],
                l,
                h,
                g,
                host_regs[i].rsp,
            )
        }
    &&& forall|i: int|
        0 <= i < n - 1 ==> {
            &&& #[trigger] frames[i + 1].fsbase == captured_regs(
                guest_regs[i],
                guest_mem[i],
                l,
            ).fsbase
            &&& word_at(host_mem[i + 1], (g + l.guest_self) as u64) == word_at(
                enter_mem(guest_regs[i], guest_mem[i]),
                (g + l.guest_self) as u64,
            )
        }
}

/// Through cycle `k`, every frame installs the first cycle's guest base,
/// and the guest's self slot holds it wherever the frame names it.
proof fn lemma_cycles_prefix(
    l: TlsLayout,
    host_regs: Seq<GeneralRegs>,
    host_mem: Seq<Map<u64, u64>>,
    frames: Seq<GeneralRegs>,
    guest_regs: Seq<GeneralRegs>,
    guest_mem: Seq<Map<u64, u64>>,
    k: int,
)
    requires
        cycles(l, host_regs, host_mem, frames, guest_regs, guest_mem),
        0 <= k < frames.len(),
    ensures
        ({
            let h = host_regs[0].fsbase;
            let g = installed_guest_base(frames[0], h, l);
            &&& installed_guest_base(frames[k], h, l) == g
            &&& frames[k].fsbase != 0 ==> word_at(host_mem[k], (g + l.guest_self) as u64) == g
        }),
    decreases k,
{
    if k > 0 {
        let h = host_regs[0].fsbase;
        let g = installed_guest_base(frames[0], h, l);
        let j = k - 1;
        lemma_cycles_prefix(l, host_regs, host_mem, frames, guest_regs, guest_mem, j);
        assert(host_regs[j].fsbase == h);
        assert(frames[j + 1].fsbase == captured_regs(guest_regs[j], guest_mem[j], l).fsbase);
        lemma_cycle(l, host_regs[j], host_mem[j], frames[j], guest_regs[j], guest_mem[j]);
    }
}

/// In cycle `i`, `resume` installs the guest base the first cycle
/// established, and `enter` hands the host back its own base.
pub open spec fn bases_kept_at(
    l: TlsLayout,
    host_regs: Seq<GeneralRegs>,
    host_mem: Seq<Map<u64, u64>>,
    frames: Seq<GeneralRegs>,
    guest_regs: Seq<GeneralRegs>,
    guest_mem: Seq<Map<u64, u64>>,
    i: int,
) -> bool {
    &&& resume_regs(host_regs[i], host_mem[i], frames[i], l).fsbase == installed_guest_base(
        frames[0],
        host_regs[0].fsbase,
        l,
    )
    &&& host_base_from_guest(guest_regs[i], enter_mem(guest_regs[i], guest_mem[i]), l)
        == host_regs[0].fsbase
}

/// TLS bases over any number of cycles: every `resume` installs the guest
/// base the first one established, and every `enter` hands the host back
/// its own base.
pub proof fn lemma_tls_bases_kept(
    l: TlsLayout,
    host_regs: Seq<GeneralRegs>,
    host_mem: Seq<Map<u64, u64>>,
    frames: Seq<GeneralRegs>,
    guest_regs: Seq<GeneralRegs>,
    guest_mem: Seq<Map<u64, u64>>,
)
    requires
        cycles(l, host_regs, host_mem, frames, guest_regs, guest_mem),
    ensures
        forall|i: int|
            0 <= i < frames.len() ==> #[trigger] bases_kept_at(
                l,
                host_regs,
                host_mem,
                frames,
                guest_regs,
                guest_mem,
                i,
            ),
{
    assert forall|i: int| 0 <= i < frames.len() implies #[trigger] bases_kept_at(
        l,
        host_regs,
        host_mem,
        frames,
        guest_regs,
        guest_mem,
        i,
    ) by {
        lemma_cycles_prefix(l, host_regs, host_mem, frames, guest_regs, guest_mem, i);
        assert(host_regs[i].fsbase == host_regs[0].fsbase);
        lemma_cycle(l, host_regs[i], host_mem[i], frames[i], guest_regs[i], guest_mem[i]);
    }
}

} // verus!
