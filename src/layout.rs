use vstd::prelude::*;

verus! {

/// Size of a page handed out by the page allocator.
pub const PAGE_SIZE: u64 = 4096;

/// Size of the interrupt and syscall landing stacks (one page each).
pub const KERNEL_STACK_SIZE: u64 = 4096;

/// Saved RFLAGS with interrupts disabled (bit 1 is always set).
pub const RFLAGS_IF_DISABLED: u64 = 0x02;

/// Saved RFLAGS with interrupts enabled.
pub const RFLAGS_IF_ENABLED: u64 = 0x202;

/// 64-bit user code segment selector.
pub const USER_CS64: u64 = 40;

/// User data segment selector.
pub const USER_DS: u64 = 32;

/// Requested privilege level of user-mode selectors.
pub const USER_RPL: u64 = 3;

/// The words of a cooperative-switch layer in push order: six callee-saved
/// registers (RBP, RBX, R12, R13, R14, R15), the resume address, and RFLAGS
/// with interrupts disabled. The switch routine pops them in reverse: the
/// flags, the resume address, then the registers.
pub open spec fn switch_layer(rip: u64, regs: Seq<u64>) -> Seq<u64> {
    regs.push(rip).push(RFLAGS_IF_DISABLED)
}

/// Six zeroed callee-saved register slots.
pub open spec fn zero_regs() -> Seq<u64> {
    seq![0u64, 0u64, 0u64, 0u64, 0u64, 0u64]
}

/// The words of a hardware trap-return (IRET) layer in push order:
/// SS, RSP, RFLAGS, CS, RIP.
pub open spec fn iret_layer(rip: u64, rflags: u64, rsp: u64) -> Seq<u64> {
    seq![USER_DS | USER_RPL, rsp, rflags, USER_CS64 | USER_RPL, rip]
}

/// The words of the signal layer in push order: user RSP, user RIP, RFLAGS
/// with interrupts enabled, then the three arguments (RDI, RSI, RDX).
pub open spec fn signal_layer(rip: u64, rsp: u64, arg1: u64, arg2: u64, arg3: u64) -> Seq<u64> {
    seq![rsp, rip, RFLAGS_IF_ENABLED, arg1, arg2, arg3]
}

/// The order in which a resumption primitive pops what was pushed.
pub open spec fn pop_order(pushed: Seq<u64>) -> Seq<u64> {
    Seq::new(pushed.len(), |i: int| pushed[pushed.len() - 1 - i])
}

/// An append-only record of the 64-bit words a frame is built from, on a
/// stack that grows downwards: each push moves the stack pointer down one
/// word and records the value that belongs at the new stack pointer. The
/// owner of the memory stores word `i` of the pop order at `sp + 8 * i`.
pub struct FrameWriter {
    sp: u64,
    words: Vec<u64>,
}

impl FrameWriter {
    /// The current stack pointer.
    pub closed spec fn sp_spec(&self) -> u64 {
        self.sp
    }

    /// The words pushed so far, in push order.
    pub closed spec fn pushed(&self) -> Seq<u64> {
        self.words@
    }

    /// The address just above the first word pushed.
    pub open spec fn top_addr(&self) -> int {
        self.sp_spec() + 8 * self.pushed().len()
    }

    /// The frame lies inside the address space.
    pub open spec fn wf(&self) -> bool {
        self.top_addr() <= u64::MAX
    }

    /// A writer with nothing pushed beneath `top`.
    pub fn new(top: u64) -> (r: FrameWriter)
        ensures
            r.wf(),
            r.sp_spec() == top,
            r.pushed() == Seq::<u64>::empty(),
    {
        FrameWriter { sp: top, words: Vec::new() }
    }

    /// The current stack pointer.
    pub fn sp(&self) -> (r: u64)
        ensures
            r == self.sp_spec(),
    {
        self.sp
    }

    /// Number of words pushed.
    pub fn words_len(&self) -> (r: usize)
        ensures
            r == self.pushed().len(),
    {
        self.words.len()
    }

    /// The slot of the stack pointer, for a writer outside this library (the
    /// assembly switch routine); what lies above the pointer is then no longer
    /// known here, so the words pushed so far are forgotten.
    pub fn sp_mut(&mut self) -> (r: &mut u64)
        ensures
            *r == old(self).sp_spec(),
            final(self).sp_spec() == *final(r),
            final(self).pushed() == Seq::<u64>::empty(),
    {
        self.words = Vec::new();
        &mut self.sp
    }

    /// Pushes one word.
    pub fn push(&mut self, value: u64)
        requires
            old(self).wf(),
            old(self).sp_spec() >= 8,
        ensures
            final(self).wf(),
            final(self).sp_spec() == old(self).sp_spec() - 8,
            final(self).pushed() == old(self).pushed().push(value),
    {
        self.sp = self.sp - 8;
        self.words.push(value);
    }

    /// The `i`-th word in pop order (the word at `sp + 8 * i`).
    pub fn peek(&self, i: usize) -> (r: u64)
        requires
            i < self.pushed().len(),
        ensures
            r == pop_order(self.pushed())[i as int],
    {
        self.words[self.words.len() - 1 - i]
    }

    /// Pushes a cooperative-switch layer resuming at `rip` with the given
    /// callee-saved registers.
    pub fn push_switch_layer(&mut self, rip: u64, rbp: u64, rbx: u64, r12: u64, r13: u64, r14: u64, r15: u64)
        requires
            old(self).wf(),
            old(self).sp_spec() >= 8 * 8,
        ensures
            final(self).wf(),
            final(self).sp_spec() == old(self).sp_spec() - 8 * 8,
            final(self).pushed() == old(self).pushed() + switch_layer(rip, seq![rbp, rbx, r12, r13, r14, r15]),
    {
        self.push(rbp);
        self.push(rbx);
        self.push(r12);
        self.push(r13);
        self.push(r14);
        self.push(r15);
        self.push(rip);
        self.push(RFLAGS_IF_DISABLED);
        assert(self.pushed() =~= old(self).pushed() + switch_layer(rip, seq![rbp, rbx, r12, r13, r14, r15]));
    }

    /// Pushes a trap-return layer that enters user mode at `rip` on `rsp`
    /// with `rflags`.
    pub fn push_iret_layer(&mut self, rip: u64, rflags: u64, rsp: u64)
        requires
            old(self).wf(),
            old(self).sp_spec() >= 8 * 5,
        ensures
            final(self).wf(),
            final(self).sp_spec() == old(self).sp_spec() - 8 * 5,
            final(self).pushed() == old(self).pushed() + iret_layer(rip, rflags, rsp),
    {
        self.push(USER_DS | USER_RPL);
        self.push(rsp);
        self.push(rflags);
        self.push(USER_CS64 | USER_RPL);
        self.push(rip);
        assert(self.pushed() =~= old(self).pushed() + iret_layer(rip, rflags, rsp));
    }

    /// Pushes the signal layer.
    pub fn push_signal_layer(&mut self, rip: u64, rsp: u64, arg1: u64, arg2: u64, arg3: u64)
        requires
            old(self).wf(),
            old(self).sp_spec() >= 8 * 6,
        ensures
            final(self).wf(),
            final(self).sp_spec() == old(self).sp_spec() - 8 * 6,
            final(self).pushed() == old(self).pushed() + signal_layer(rip, rsp, arg1, arg2, arg3),
    {
        self.push(rsp);
        self.push(rip);
        self.push(RFLAGS_IF_ENABLED);
        self.push(arg1);
        self.push(arg2);
        self.push(arg3);
        assert(self.pushed() =~= old(self).pushed() + signal_layer(rip, rsp, arg1, arg2, arg3));
    }
}

} // verus!
