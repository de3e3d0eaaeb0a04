use vstd::prelude::*;
use crate::layout::{
    iret_layer, pop_order, KERNEL_STACK_SIZE, RFLAGS_IF_DISABLED, RFLAGS_IF_ENABLED, USER_CS64, USER_DS,
    USER_RPL,
};
use crate::switch::{switched, CpuLocal};
use crate::thread::{forked_frame, kthread_frame, user_thread_frame, EntryPoints, SyscallFrame, Thread};

verus! {

/// Popping a new kernel thread's frame gives the flags with interrupts
/// disabled, the kernel-thread entry routine the switch resumes in, six
/// zeroed registers, and then the thread's entry address.
pub proof fn kthread_frame_pops(ip: u64, e: EntryPoints)
    ensures
        pop_order(kthread_frame(ip, e)) == seq![RFLAGS_IF_DISABLED, e.kthread_entry, 0u64, 0u64, 0u64, 0u64, 0u64, 0u64, ip],
{
    let f = kthread_frame(ip, e);
    assert(f =~= seq![ip, 0u64, 0u64, 0u64, 0u64, 0u64, 0u64, e.kthread_entry, RFLAGS_IF_DISABLED]);
    assert(pop_order(f) =~= seq![RFLAGS_IF_DISABLED, e.kthread_entry, 0u64, 0u64, 0u64, 0u64, 0u64, 0u64, ip]);
}

/// A new user thread's frame holds, in its outer (trap-return) layer, the
/// exact entry address and user stack pointer, interrupt-enabled flags and
/// the user code and data selectors; its inner (switch) layer's flags have
/// interrupts disabled.
pub proof fn user_thread_layers(ip: u64, sp: u64, e: EntryPoints)
    ensures
        ({
            let f = user_thread_frame(ip, sp, e);
            &&& f.len() == 13
            &&& f[0] == USER_DS | USER_RPL
            &&& f[1] == sp
            &&& f[2] == RFLAGS_IF_ENABLED
            &&& f[3] == USER_CS64 | USER_RPL
            &&& f[4] == ip
            &&& f[11] == e.userland_entry
            &&& f[12] == RFLAGS_IF_DISABLED
            &&& pop_order(f)[0] == RFLAGS_IF_DISABLED
            &&& pop_order(f)[1] == e.userland_entry
            &&& pop_order(f)[8] == ip
            &&& pop_order(f)[9] == USER_CS64 | USER_RPL
            &&& pop_order(f)[10] == RFLAGS_IF_ENABLED
            &&& pop_order(f)[11] == sp
            &&& pop_order(f)[12] == USER_DS | USER_RPL
        }),
{
}

/// A forked child's trap-return layer reproduces the captured RIP, RSP and
/// RFLAGS exactly, and its fork-child layer each captured argument register.
pub proof fn forked_frame_reproduces(f: SyscallFrame, e: EntryPoints)
    ensures
        ({
            let c = forked_frame(f, e);
            &&& c.len() == 21
            &&& c.subrange(0, 5) == iret_layer(f.rip, f.rflags, f.rsp)
            &&& c[5] == f.rflags
            &&& c[6] == f.rip
            &&& c[7] == f.r10
            &&& c[8] == f.r9
            &&& c[9] == f.r8
            &&& c[10] == f.rsi
            &&& c[11] == f.rdi
            &&& c[12] == f.rdx
            &&& c[19] == e.forked_child_entry
        }),
{
    let c = forked_frame(f, e);
    assert(c.subrange(0, 5) =~= iret_layer(f.rip, f.rflags, f.rsp));
}

/// Switching from `a` to `b` and straight back leaves the live extended
/// registers as they were and the next traps landing on `a`'s stacks; when
/// `a`'s XSAVE area held the live image to begin with (as it does once `a`
/// has been switched in), it holds the same image afterwards.
pub proof fn switch_round_trip(
    a0: Thread,
    b0: Thread,
    c0: CpuLocal,
    a1: Thread,
    b1: Thread,
    c1: CpuLocal,
    a2: Thread,
    b2: Thread,
    c2: CpuLocal,
)
    requires
        a0.xsave_spec() is Some,
        b0.xsave_spec() is Some,
        switched(a0, b0, c0, a1, b1, c1),
        switched(b1, a1, c1, b2, a2, c2),
    ensures
        c2.ext_regs_spec() == c0.ext_regs_spec(),
        c2.rsp0_spec() == a0.syscall_stack_spec() + KERNEL_STACK_SIZE,
        c2.tss_rsp0_spec() == a0.interrupt_stack_spec() + KERNEL_STACK_SIZE,
        c2.fsbase_spec() == a0.fsbase_spec(),
        a2 == a1,
        a2.xsave_spec().unwrap().addr_spec() == a0.xsave_spec().unwrap().addr_spec(),
        a2.xsave_spec().unwrap().image_spec() == c0.ext_regs_spec(),
        a0.xsave_spec().unwrap().image_spec() == c0.ext_regs_spec()
            ==> a2.xsave_spec().unwrap().image_spec() == a0.xsave_spec().unwrap().image_spec(),
{
}

/// A switch between two threads without XSAVE areas leaves the live
/// extended registers and both threads as they were.
pub proof fn switch_without_xsave(
    p0: Thread,
    n0: Thread,
    c0: CpuLocal,
    p1: Thread,
    n1: Thread,
    c1: CpuLocal,
)
    requires
        p0.xsave_spec() is None,
        n0.xsave_spec() is None,
        switched(p0, n0, c0, p1, n1, c1),
    ensures
        c1.ext_regs_spec() == c0.ext_regs_spec(),
        p1 == p0,
        n1 == n0,
{
}

} // verus!
