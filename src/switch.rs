use vstd::prelude::*;
use crate::layout::KERNEL_STACK_SIZE;
use crate::memory::VAddr;
use crate::thread::Thread;

verus! {

/// Written into the last-user-RSP slot on every switch: a value no trap
/// entry path may read before it has stored a real one.
pub const USER_RSP_POISON: u64 = 0xbaad_5a5a_5b5b_baad;

/// One core's transition state: where the next traps land, and the live
/// registers that a switch reprograms.
pub struct CpuLocal {
    rsp0: u64,
    tss_rsp0: u64,
    rsp3: u64,
    fsbase: u64,
    xsave_mask: u64,
    ext_regs: Ghost<Seq<u8>>,
}

impl CpuLocal {
    /// Top of the stack the syscall entry path switches to.
    pub closed spec fn rsp0_spec(&self) -> u64 {
        self.rsp0
    }

    /// Top of the stack the hardware switches to on an interrupt (the
    /// task-state segment's RSP0).
    pub closed spec fn tss_rsp0_spec(&self) -> u64 {
        self.tss_rsp0
    }

    /// The last user stack pointer captured by a trap entry.
    pub closed spec fn rsp3_spec(&self) -> u64 {
        self.rsp3
    }

    /// The live FS base register.
    pub closed spec fn fsbase_spec(&self) -> u64 {
        self.fsbase
    }

    /// The XCR0 feature mask that XSAVE and XRSTOR are given.
    pub closed spec fn xsave_mask_spec(&self) -> u64 {
        self.xsave_mask
    }

    /// The live extended register image (ghost state: the registers
    /// themselves hold it).
    pub closed spec fn ext_regs_spec(&self) -> Seq<u8> {
        self.ext_regs@
    }

    /// The state of a core at boot: no landing stacks yet and the feature
    /// mask read once from XCR0.
    pub fn new(xsave_mask: u64) -> (r: CpuLocal)
        ensures
            r.rsp0_spec() == 0,
            r.tss_rsp0_spec() == 0,
            r.rsp3_spec() == 0,
            r.fsbase_spec() == 0,
            r.xsave_mask_spec() == xsave_mask,
    {
        CpuLocal { rsp0: 0, tss_rsp0: 0, rsp3: 0, fsbase: 0, xsave_mask, ext_regs: Ghost(Seq::empty()) }
    }

    pub fn rsp0(&self) -> (r: u64)
        ensures
            r == self.rsp0_spec(),
    {
        self.rsp0
    }

    pub fn tss_rsp0(&self) -> (r: u64)
        ensures
            r == self.tss_rsp0_spec(),
    {
        self.tss_rsp0
    }

    pub fn rsp3(&self) -> (r: u64)
        ensures
            r == self.rsp3_spec(),
    {
        self.rsp3
    }

    pub fn fsbase(&self) -> (r: u64)
        ensures
            r == self.fsbase_spec(),
    {
        self.fsbase
    }

    pub fn xsave_mask(&self) -> (r: u64)
        ensures
            r == self.xsave_mask_spec(),
    {
        self.xsave_mask
    }
}

/// `t1` is `t0` after its XSAVE area, if it has one, captured `live`.
pub open spec fn xsave_captured(t0: Thread, t1: Thread, live: Seq<u8>) -> bool {
    &&& t0.xsave_spec() is None ==> t1 == t0
    &&& t0.xsave_spec() is Some ==> {
        &&& t1.xsave_spec() is Some
        &&& t1.xsave_spec().unwrap().addr_spec() == t0.xsave_spec().unwrap().addr_spec()
        &&& t1.xsave_spec().unwrap().image_spec() == live
        &&& t1.saved_rsp_spec() == t0.saved_rsp_spec()
        &&& t1.fsbase_spec() == t0.fsbase_spec()
        &&& t1.interrupt_stack_spec() == t0.interrupt_stack_spec()
        &&& t1.syscall_stack_spec() == t0.syscall_stack_spec()
        &&& t1.frame() == t0.frame()
        &&& t1.frame_top() == t0.frame_top()
    }
}

/// What a switch from `prev0` to `next0` on a core in state `cpu0` leaves
/// behind: the next traps land on `next0`'s stacks, `prev0`'s XSAVE area
/// (if any) holds the live extended registers of before, `next0`'s area (if
/// any) is loaded into them, the last-user-RSP slot is poisoned and the FS
/// base is `next0`'s.
pub open spec fn switched(
    prev0: Thread,
    next0: Thread,
    cpu0: CpuLocal,
    prev1: Thread,
    next1: Thread,
    cpu1: CpuLocal,
) -> bool {
    &&& cpu1.rsp0_spec() == next0.syscall_stack_spec() + KERNEL_STACK_SIZE
    &&& cpu1.tss_rsp0_spec() == next0.interrupt_stack_spec() + KERNEL_STACK_SIZE
    &&& cpu1.rsp3_spec() == USER_RSP_POISON
    &&& cpu1.fsbase_spec() == next0.fsbase_spec()
    &&& cpu1.xsave_mask_spec() == cpu0.xsave_mask_spec()
    &&& cpu1.ext_regs_spec() == (if next0.xsave_spec() is Some {
        next0.xsave_spec().unwrap().image_spec()
    } else {
        cpu0.ext_regs_spec()
    })
    &&& xsave_captured(prev0, prev1, cpu0.ext_regs_spec())
    &&& next1 == next0
}

/// The extended-register transfers a switch asks of the processor: XSAVE
/// into `save_to` and then XRSTOR from `restore_from`, each where present.
pub struct XsaveSteps {
    pub save_to: Option<VAddr>,
    pub restore_from: Option<VAddr>,
}

/// The address of a thread's XSAVE area, if it has one.
pub open spec fn xsave_addr(t: Thread) -> Option<VAddr> {
    if t.xsave_spec() is Some {
        Some(VAddr(t.xsave_spec().unwrap().addr_spec()))
    } else {
        None
    }
}

/// Reprograms the core for running `next` in place of `prev`: the syscall
/// and interrupt landing stacks become `next`'s, the extended registers are
/// saved into `prev`'s XSAVE area and loaded from `next`'s (each step skipped
/// for a thread without one; the returned steps say which to perform), the
/// last-user-RSP slot is poisoned and the FS base becomes `next`'s. The
/// exchange of general registers and stack pointers that follows is the
/// assembly switch routine's. `next` must have been suspended before: a boot
/// context whose saved stack pointer is still zero cannot be switched into.
pub fn switch_thread(prev: &mut Thread, next: &mut Thread, cpu: &mut CpuLocal) -> (r: XsaveSteps)
    requires
        old(prev).stacks_ok(),
        old(next).stacks_ok(),
        old(next).saved_rsp_spec() != 0,
    ensures
        r.save_to == xsave_addr(*old(prev)),
        r.restore_from == xsave_addr(*old(next)),
        switched(*old(prev), *old(next), *old(cpu), *final(prev), *final(next), *final(cpu)),
        final(prev).stacks_ok(),
        old(prev).wf() ==> final(prev).wf(),
{
    let syscall_top = next.syscall_stack().value() + KERNEL_STACK_SIZE;
    let interrupt_top = next.interrupt_stack().value() + KERNEL_STACK_SIZE;
    cpu.rsp0 = syscall_top;
    cpu.tss_rsp0 = interrupt_top;

    let save_to = match prev.xsave_area() {
        Some(area) => Some(area.addr()),
        None => None,
    };
    prev.save_xsave(cpu.ext_regs);
    let restore_from = match next.xsave_area() {
        Some(area) => {
            cpu.ext_regs = Ghost(area.image_spec());
            Some(area.addr())
        },
        None => None,
    };

    cpu.rsp3 = USER_RSP_POISON;
    cpu.fsbase = next.fsbase();
    XsaveSteps { save_to, restore_from }
}

} // verus!
