use vstd::prelude::*;
use crate::layout::{
    iret_layer, pop_order, signal_layer, switch_layer, zero_regs, FrameWriter, KERNEL_STACK_SIZE,
    PAGE_SIZE, RFLAGS_IF_DISABLED, RFLAGS_IF_ENABLED,
};
use crate::memory::{is_page_addr, PagePool, UserVAddr, VAddr};

verus! {

/// Addresses of the low-level entry routines that built frames resume into.
#[derive(Clone, Copy, Debug)]
pub struct EntryPoints {
    /// Starts a kernel thread: pops the entry address and jumps to it.
    pub kthread_entry: u64,
    /// Starts a user thread: returns to user mode through the trap-return layer.
    pub userland_entry: u64,
    /// Starts a forked child: restores the syscall registers, then returns to user mode.
    pub forked_child_entry: u64,
    /// Enters a signal handler of a context that was switched back in.
    pub signal_handler_entry: u64,
    /// Enters a signal handler directly, from the context that is running.
    pub direct_signal_handler_entry: u64,
}

/// The registers captured when a thread entered the kernel by a system call.
#[derive(Clone, Copy, Debug)]
pub struct SyscallFrame {
    pub rip: u64,
    pub rsp: u64,
    pub rflags: u64,
    pub rax: u64,
    pub rbx: u64,
    pub rcx: u64,
    pub rdx: u64,
    pub rsi: u64,
    pub rdi: u64,
    pub rbp: u64,
    pub r8: u64,
    pub r9: u64,
    pub r10: u64,
    pub r11: u64,
    pub r12: u64,
    pub r13: u64,
    pub r14: u64,
    pub r15: u64,
}

/// Why a context could not be built.
#[derive(Clone, Copy, Debug, PartialEq, Eq)]
pub enum ContextError {
    /// The page pool ran out.
    NoMemory,
}

/// The layer a forked child's entry routine pops, in push order: R11 and
/// RCX as SYSCALL left them (RFLAGS and RIP), then R10, R9, R8, RSI, RDI, RDX.
pub open spec fn fork_child_layer(f: SyscallFrame) -> Seq<u64> {
    seq![f.rflags, f.rip, f.r10, f.r9, f.r8, f.rsi, f.rdi, f.rdx]
}

/// The whole frame of a new kernel thread, in push order.
pub open spec fn kthread_frame(ip: u64, e: EntryPoints) -> Seq<u64> {
    seq![ip] + switch_layer(e.kthread_entry, zero_regs())
}

/// The whole frame of a new user thread, in push order.
pub open spec fn user_thread_frame(ip: u64, sp: u64, e: EntryPoints) -> Seq<u64> {
    iret_layer(ip, RFLAGS_IF_ENABLED, sp) + switch_layer(e.userland_entry, zero_regs())
}

/// The whole frame of a forked child, in push order.
pub open spec fn forked_frame(f: SyscallFrame, e: EntryPoints) -> Seq<u64> {
    iret_layer(f.rip, f.rflags, f.rsp) + fork_child_layer(f) + switch_layer(
        e.forked_child_entry,
        seq![f.rbp, f.rbx, f.r12, f.r13, f.r14, f.r15],
    )
}

/// What the signal path pushes on a suspended context, in push order.
pub open spec fn queued_signal_frame(
    rip: u64,
    rsp: u64,
    arg1: u64,
    arg2: u64,
    arg3: u64,
    e: EntryPoints,
) -> Seq<u64> {
    signal_layer(rip, rsp, arg1, arg2, arg3) + switch_layer(e.signal_handler_entry, zero_regs())
}

/// A page-sized buffer at `addr` for the extended (XSAVE) register image.
/// The image it holds is tracked as ghost state: the processor's XSAVE and
/// XRSTOR move the real bytes.
pub struct XsaveArea {
    addr: VAddr,
    image: Ghost<Seq<u8>>,
}

impl XsaveArea {
    pub closed spec fn addr_spec(&self) -> u64 {
        self.addr.0
    }

    /// The register image last captured into the buffer.
    pub closed spec fn image_spec(&self) -> Seq<u8> {
        self.image@
    }

    /// A fresh buffer at `addr`. What it holds before the first capture is
    /// whatever the page allocator handed out.
    pub fn new(addr: VAddr) -> (r: XsaveArea)
        ensures
            r.addr_spec() == addr.0,
    {
        XsaveArea { addr, image: Ghost(Seq::empty()) }
    }

    pub fn addr(&self) -> (r: VAddr)
        ensures
            r.0 == self.addr_spec(),
    {
        self.addr
    }

    /// Records that the live image `live` was captured into the buffer (XSAVE).
    pub(crate) fn save_from(&mut self, live: Ghost<Seq<u8>>)
        ensures
            final(self).addr_spec() == old(self).addr_spec(),
            final(self).image_spec() == live@,
    {
        self.image = live;
    }
}

/// The saved execution context of one thread.
pub struct Thread {
    fsbase: u64,
    xsave_area: Option<XsaveArea>,
    interrupt_stack: VAddr,
    syscall_stack: VAddr,
    stack: FrameWriter,
}

impl Thread {
    pub closed spec fn saved_rsp_spec(&self) -> u64 {
        self.stack.sp_spec()
    }

    pub closed spec fn fsbase_spec(&self) -> u64 {
        self.fsbase
    }

    pub closed spec fn xsave_spec(&self) -> Option<XsaveArea> {
        self.xsave_area
    }

    /// Base address of the interrupt landing stack.
    pub closed spec fn interrupt_stack_spec(&self) -> u64 {
        self.interrupt_stack.0
    }

    /// Base address of the syscall landing stack.
    pub closed spec fn syscall_stack_spec(&self) -> u64 {
        self.syscall_stack.0
    }

    /// The words of this context's frame, in push order: the caller keeps
    /// them in memory so that word `i` of the pop order is at `saved_rsp() + 8 * i`.
    pub closed spec fn frame(&self) -> Seq<u64> {
        self.stack.pushed()
    }

    /// The address just above the frame.
    pub closed spec fn frame_top(&self) -> int {
        self.stack.top_addr()
    }

    /// Both landing stacks are whole pages.
    pub open spec fn stacks_ok(&self) -> bool {
        &&& is_page_addr(self.interrupt_stack_spec())
        &&& is_page_addr(self.syscall_stack_spec())
    }

    /// The landing stacks are whole pages and the frame, which starts at
    /// the saved stack pointer, ends inside the address space.
    pub open spec fn wf(&self) -> bool {
        &&& self.stacks_ok()
        &&& self.frame_top() <= u64::MAX
    }

    /// A kernel thread that starts at `ip` on the stack ending at `sp`. Its
    /// frame, which the caller stores at `saved_rsp() + 8 * i` before the
    /// thread is first switched in, is the entry address and, on top of it,
    /// a switch layer that resumes in the kernel-thread entry routine with
    /// zeroed registers and interrupts disabled. The interrupt stack is the
    /// first page taken from `pages`, the syscall stack the second.
    pub fn new_kthread(ip: VAddr, sp: VAddr, entries: &EntryPoints, pages: &mut PagePool) -> (r: Thread)
        requires
            old(pages).wf(),
            old(pages).pages().len() >= 2,
            sp.0 >= 72,
        ensures
            final(pages).wf(),
            final(pages).pages() == old(pages).pages().subrange(0, old(pages).pages().len() - 2),
            r.wf(),
            r.interrupt_stack_spec() == old(pages).pages()[old(pages).pages().len() - 1],
            r.syscall_stack_spec() == old(pages).pages()[old(pages).pages().len() - 2],
            r.interrupt_stack_spec() != r.syscall_stack_spec(),
            r.frame_top() == sp.0,
            r.frame() == kthread_frame(ip.0, *entries),
            pop_order(r.frame()) == seq![RFLAGS_IF_DISABLED, entries.kthread_entry, 0u64, 0u64, 0u64, 0u64, 0u64, 0u64, ip.0],
            r.saved_rsp_spec() == sp.0 - 72,
            r.fsbase_spec() == 0,
            r.xsave_spec().is_none(),
    {
        let ghost n = old(pages).pages().len();
        proof { assert(old(pages).pages()[n - 1] != old(pages).pages()[n - 2]); }
        let interrupt_stack = pages.alloc_page().unwrap();
        let syscall_stack = pages.alloc_page().unwrap();
        let mut stack = FrameWriter::new(sp.value());
        stack.push(ip.value());
        stack.push_switch_layer(entries.kthread_entry, 0, 0, 0, 0, 0, 0);
        assert(stack.pushed() =~= kthread_frame(ip.0, *entries));
        assert(stack.pushed() =~= seq![ip.0, 0u64, 0u64, 0u64, 0u64, 0u64, 0u64, entries.kthread_entry, RFLAGS_IF_DISABLED]);
        assert(pop_order(stack.pushed()) =~= seq![RFLAGS_IF_DISABLED, entries.kthread_entry, 0u64, 0u64, 0u64, 0u64, 0u64, 0u64, ip.0]);
        assert(old(pages).pages().drop_last().drop_last() =~= old(pages).pages().subrange(0, old(pages).pages().len() - 2));
        Thread { fsbase: 0, xsave_area: None, interrupt_stack, syscall_stack, stack }
    }

    /// A user thread that enters user mode at `ip` on the user stack `sp`.
    /// Its frame, to be stored beneath `kernel_sp` (word `i` at
    /// `saved_rsp() + 8 * i`), is a trap-return layer (user selectors,
    /// interrupts enabled) and, on top of it, a switch layer that resumes in
    /// the user-thread entry routine with interrupts disabled. The
    /// pages taken, in order: interrupt stack, syscall stack, XSAVE area.
    pub fn new_user_thread(
        ip: UserVAddr,
        sp: UserVAddr,
        kernel_sp: VAddr,
        entries: &EntryPoints,
        pages: &mut PagePool,
    ) -> (r: Thread)
        requires
            old(pages).wf(),
            old(pages).pages().len() >= 3,
            kernel_sp.0 >= 104,
        ensures
            final(pages).wf(),
            final(pages).pages() == old(pages).pages().subrange(0, old(pages).pages().len() - 3),
            r.wf(),
            r.interrupt_stack_spec() == old(pages).pages()[old(pages).pages().len() - 1],
            r.syscall_stack_spec() == old(pages).pages()[old(pages).pages().len() - 2],
            r.xsave_spec().is_some(),
            r.xsave_spec().unwrap().addr_spec() == old(pages).pages()[old(pages).pages().len() - 3],
            r.interrupt_stack_spec() != r.syscall_stack_spec(),
            r.interrupt_stack_spec() != r.xsave_spec().unwrap().addr_spec(),
            r.syscall_stack_spec() != r.xsave_spec().unwrap().addr_spec(),
            r.frame_top() == kernel_sp.0,
            r.frame() == user_thread_frame(ip.0, sp.0, *entries),
            r.saved_rsp_spec() == kernel_sp.0 - 104,
            r.fsbase_spec() == 0,
    {
        let ghost n = old(pages).pages().len();
        proof {
            assert(old(pages).pages()[n - 1] != old(pages).pages()[n - 2]);
            assert(old(pages).pages()[n - 1] != old(pages).pages()[n - 3]);
            assert(old(pages).pages()[n - 2] != old(pages).pages()[n - 3]);
        }
        let interrupt_stack = pages.alloc_page().unwrap();
        let syscall_stack = pages.alloc_page().unwrap();
        let xsave_area = XsaveArea::new(pages.alloc_page().unwrap());
        let mut stack = FrameWriter::new(kernel_sp.value());
        stack.push_iret_layer(ip.value(), RFLAGS_IF_ENABLED, sp.value());
        stack.push_switch_layer(entries.userland_entry, 0, 0, 0, 0, 0, 0);
        assert(stack.pushed() =~= user_thread_frame(ip.0, sp.0, *entries));
        assert(old(pages).pages().drop_last().drop_last().drop_last() =~= old(pages).pages().subrange(
            0,
            old(pages).pages().len() - 3,
        ));
        Thread {
            fsbase: 0,
            xsave_area: Some(xsave_area),
            interrupt_stack,
            syscall_stack,
            stack,
        }
    }

    /// The context of a core's boot path: it has landing stacks (interrupt
    /// stack first, then syscall stack) but no frame, and a saved stack
    /// pointer of zero until it is first switched out of.
    pub fn new_idle_thread(pages: &mut PagePool) -> (r: Thread)
        requires
            old(pages).wf(),
            old(pages).pages().len() >= 2,
        ensures
            final(pages).wf(),
            final(pages).pages() == old(pages).pages().subrange(0, old(pages).pages().len() - 2),
            r.wf(),
            r.interrupt_stack_spec() == old(pages).pages()[old(pages).pages().len() - 1],
            r.syscall_stack_spec() == old(pages).pages()[old(pages).pages().len() - 2],
            r.interrupt_stack_spec() != r.syscall_stack_spec(),
            r.saved_rsp_spec() == 0,
            r.frame_top() == 0,
            r.frame() == Seq::<u64>::empty(),
            r.fsbase_spec() == 0,
            r.xsave_spec().is_none(),
    {
        let ghost n = old(pages).pages().len();
        proof { assert(old(pages).pages()[n - 1] != old(pages).pages()[n - 2]); }
        let interrupt_stack = pages.alloc_page().unwrap();
        let syscall_stack = pages.alloc_page().unwrap();
        assert(old(pages).pages().drop_last().drop_last() =~= old(pages).pages().subrange(0, old(pages).pages().len() - 2));
        Thread { fsbase: 0, xsave_area: None, interrupt_stack, syscall_stack, stack: FrameWriter::new(0) }
    }

    /// The child of a `fork` system call made with the registers `frame`.
    /// It shares the parent's TLS base; its frame, to be stored on a fresh
    /// kernel stack (word `i` at `saved_rsp() + 8 * i`), is a
    /// trap-return layer back to the parent's user RIP, RSP and RFLAGS, the
    /// fork-child layer of syscall argument registers, and a switch layer
    /// (the parent's callee-saved registers) resuming in the forked-child
    /// entry routine. The pages taken, in order: XSAVE area, kernel stack,
    /// interrupt stack, syscall stack. With fewer than four free pages it
    /// fails with `NoMemory` and takes none.
    pub fn fork(&self, frame: &SyscallFrame, entries: &EntryPoints, pages: &mut PagePool) -> (r: Result<
        Thread,
        ContextError,
    >)
        requires
            old(pages).wf(),
        ensures
            final(pages).wf(),
            old(pages).pages().len() < 4 <==> r is Err,
            r is Err ==> r == Err::<Thread, ContextError>(ContextError::NoMemory) && final(pages).pages() == old(pages).pages(),
            r is Ok ==> {
                let n = old(pages).pages().len();
                let c = r->Ok_0;
                &&& final(pages).pages() == old(pages).pages().subrange(0, n - 4)
                &&& c.wf()
                &&& c.xsave_spec().is_some()
                &&& c.xsave_spec().unwrap().addr_spec() == old(pages).pages()[n - 1]
                &&& c.frame_top() == old(pages).pages()[n - 2] + PAGE_SIZE
                &&& c.interrupt_stack_spec() == old(pages).pages()[n - 3]
                &&& c.syscall_stack_spec() == old(pages).pages()[n - 4]
                &&& old(pages).pages().subrange(n - 4, n as int).no_duplicates()
                &&& c.frame() == forked_frame(*frame, *entries)
                &&& c.saved_rsp_spec() == c.frame_top() - 168
                &&& c.fsbase_spec() == self.fsbase_spec()
            },
    {
        if pages.len() < 4 {
            return Err(ContextError::NoMemory);
        }
        let ghost n = old(pages).pages().len();
        proof {
            let sub = old(pages).pages().subrange(n - 4, n as int);
            assert forall|i: int, j: int| 0 <= i < sub.len() && 0 <= j < sub.len() && i != j implies sub[i] != sub[j] by {
                assert(sub[i] == old(pages).pages()[n - 4 + i]);
                assert(sub[j] == old(pages).pages()[n - 4 + j]);
            }
        }
        let xsave_area = XsaveArea::new(pages.alloc_page().unwrap());
        let kernel_page = pages.alloc_page().unwrap();
        let mut stack = FrameWriter::new(kernel_page.value() + PAGE_SIZE);
        stack.push_iret_layer(frame.rip, frame.rflags, frame.rsp);
        stack.push(frame.rflags);
        stack.push(frame.rip);
        stack.push(frame.r10);
        stack.push(frame.r9);
        stack.push(frame.r8);
        stack.push(frame.rsi);
        stack.push(frame.rdi);
        stack.push(frame.rdx);
        stack.push_switch_layer(entries.forked_child_entry, frame.rbp, frame.rbx, frame.r12, frame.r13, frame.r14, frame.r15);
        assert(stack.pushed() =~= forked_frame(*frame, *entries));
        let interrupt_stack = pages.alloc_page().unwrap();
        let syscall_stack = pages.alloc_page().unwrap();
        assert(old(pages).pages().drop_last().drop_last().drop_last().drop_last() =~= old(pages).pages().subrange(
            0,
            old(pages).pages().len() - 4,
        ));
        Ok(
            Thread {
                fsbase: self.fsbase,
                xsave_area: Some(xsave_area),
                interrupt_stack,
                syscall_stack,
                stack,
            },
        )
    }
}

/// Exclusive access to a thread's context, as held under its lock.
pub struct ThreadGuard {
    thread: Thread,
    held: bool,
}

/// A trap-return frame for entering a signal handler at once, from the
/// context that is running: the words go, in push order, onto a small
/// scratch stack, and control jumps to `entry` with the stack pointer at
/// the last one.
pub struct SignalHandoff {
    entry: u64,
    words: Vec<u64>,
}

impl SignalHandoff {
    pub closed spec fn entry_spec(&self) -> u64 {
        self.entry
    }

    pub closed spec fn words_spec(&self) -> Seq<u64> {
        self.words@
    }

    pub fn entry(&self) -> (r: u64)
        ensures
            r == self.entry_spec(),
    {
        self.entry
    }

    /// Number of words in the frame.
    pub fn len(&self) -> (r: usize)
        ensures
            r == self.words_spec().len(),
    {
        self.words.len()
    }

    /// The `i`-th word pushed.
    pub fn word(&self, i: usize) -> (r: u64)
        requires
            i < self.words_spec().len(),
        ensures
            r == self.words_spec()[i as int],
    {
        self.words[i]
    }
}

impl ThreadGuard {
    pub closed spec fn thread_spec(&self) -> Thread {
        self.thread
    }

    pub closed spec fn held_spec(&self) -> bool {
        self.held
    }

    /// Wraps `thread`, marked as held: the caller has taken its lock.
    pub fn lock(thread: Thread) -> (r: ThreadGuard)
        ensures
            r.held_spec(),
            r.thread_spec() == thread,
    {
        ThreadGuard { thread, held: true }
    }

    pub fn is_held(&self) -> (r: bool)
        ensures
            r == self.held_spec(),
    {
        self.held
    }

    /// Releases the lock.
    pub fn unlock(&mut self)
        ensures
            !final(self).held_spec(),
            final(self).thread_spec() == old(self).thread_spec(),
    {
        self.held = false;
    }

    pub fn thread(&self) -> (r: &Thread)
        ensures
            *r == self.thread_spec(),
    {
        &self.thread
    }

    /// Gives the context back.
    pub fn into_inner(self) -> (r: Thread)
        ensures
            r == self.thread_spec(),
    {
        self.thread
    }
}

impl Thread {
    /// Arranges for the locked thread to run a signal handler at
    /// `user_rip` on `user_rsp` with three arguments.
    ///
    /// The lock is released on both paths. For the thread that is running
    /// (`is_current_process`) that happens before the handoff is returned,
    /// since control leaves through the handoff and never comes back; the
    /// context itself is untouched. For a suspended thread the signal layer
    /// and a switch layer into the signal entry routine are pushed on top of
    /// its frame, so the saved stack pointer drops by fourteen words and the
    /// old frame stays beneath; nothing is returned.
    pub fn set_signal_entry(
        this: &mut ThreadGuard,
        user_rip: u64,
        user_rsp: u64,
        arg1: u64,
        arg2: u64,
        arg3: u64,
        is_current_process: bool,
        entries: &EntryPoints,
    ) -> (r: Option<SignalHandoff>)
        requires
            old(this).held_spec(),
            old(this).thread_spec().wf(),
            !is_current_process ==> old(this).thread_spec().saved_rsp_spec() >= 112,
        ensures
            is_current_process ==> {
                &&& !final(this).held_spec()
                &&& final(this).thread_spec() == old(this).thread_spec()
                &&& r is Some
                &&& r.unwrap().entry_spec() == entries.direct_signal_handler_entry
                &&& r.unwrap().words_spec() == signal_layer(user_rip, user_rsp, arg1, arg2, arg3)
            },
            !is_current_process ==> {
                let (t0, t1) = (old(this).thread_spec(), final(this).thread_spec());
                &&& !final(this).held_spec()
                &&& r is None
                &&& t1.wf()
                &&& t1.frame() == t0.frame() + queued_signal_frame(user_rip, user_rsp, arg1, arg2, arg3, *entries)
                &&& t1.frame_top() == t0.frame_top()
                &&& t1.saved_rsp_spec() + 112 == t0.saved_rsp_spec()
                &&& t1.fsbase_spec() == t0.fsbase_spec()
                &&& t1.xsave_spec() == t0.xsave_spec()
                &&& t1.interrupt_stack_spec() == t0.interrupt_stack_spec()
                &&& t1.syscall_stack_spec() == t0.syscall_stack_spec()
            },
    {
        if is_current_process {
            let mut words: Vec<u64> = Vec::new();
            words.push(user_rsp);
            words.push(user_rip);
            words.push(RFLAGS_IF_ENABLED);
            words.push(arg1);
            words.push(arg2);
            words.push(arg3);
            assert(words@ =~= signal_layer(user_rip, user_rsp, arg1, arg2, arg3));
            this.unlock();
            Some(SignalHandoff { entry: entries.direct_signal_handler_entry, words })
        } else {
            this.thread.stack.push_signal_layer(user_rip, user_rsp, arg1, arg2, arg3);
            this.thread.stack.push_switch_layer(entries.signal_handler_entry, 0, 0, 0, 0, 0, 0);
            this.unlock();
            None
        }
    }

    /// The saved stack pointer.
    pub fn saved_rsp(&self) -> (r: u64)
        ensures
            r == self.saved_rsp_spec(),
    {
        self.stack.sp()
    }

    /// The slot of the saved stack pointer, for the assembly switch routine
    /// to store into when it suspends the thread on its live stack. That
    /// stack's contents are not tracked here: the frame becomes empty.
    pub fn saved_rsp_mut(&mut self) -> (r: &mut u64)
        ensures
            *r == old(self).saved_rsp_spec(),
            final(self).saved_rsp_spec() == *final(r),
            final(self).fsbase_spec() == old(self).fsbase_spec(),
            final(self).xsave_spec() == old(self).xsave_spec(),
            final(self).interrupt_stack_spec() == old(self).interrupt_stack_spec(),
            final(self).syscall_stack_spec() == old(self).syscall_stack_spec(),
            final(self).frame() == Seq::<u64>::empty(),
            old(self).stacks_ok() ==> final(self).wf(),
    {
        self.stack.sp_mut()
    }

    /// The TLS (FS) base restored when the thread is switched in.
    pub fn fsbase(&self) -> (r: u64)
        ensures
            r == self.fsbase_spec(),
    {
        self.fsbase
    }

    /// Sets the TLS base; nothing else changes.
    pub fn set_fsbase(&mut self, base: u64)
        ensures
            final(self).fsbase_spec() == base,
            final(self).saved_rsp_spec() == old(self).saved_rsp_spec(),
            final(self).xsave_spec() == old(self).xsave_spec(),
            final(self).interrupt_stack_spec() == old(self).interrupt_stack_spec(),
            final(self).syscall_stack_spec() == old(self).syscall_stack_spec(),
            final(self).frame() == old(self).frame(),
            final(self).frame_top() == old(self).frame_top(),
    {
        self.fsbase = base;
    }

    pub fn interrupt_stack(&self) -> (r: VAddr)
        ensures
            r.0 == self.interrupt_stack_spec(),
    {
        self.interrupt_stack
    }

    pub fn syscall_stack(&self) -> (r: VAddr)
        ensures
            r.0 == self.syscall_stack_spec(),
    {
        self.syscall_stack
    }

    pub fn xsave_area(&self) -> (r: Option<&XsaveArea>)
        ensures
            r.is_some() == self.xsave_spec().is_some(),
            r.is_some() ==> *r.unwrap() == self.xsave_spec().unwrap(),
    {
        match &self.xsave_area {
            Some(a) => Some(a),
            None => None,
        }
    }

    /// Number of words in the frame beneath the saved stack pointer.
    pub fn frame_len(&self) -> (r: usize)
        ensures
            r == self.frame().len(),
    {
        self.stack.words_len()
    }

    /// The word at `saved_rsp + 8 * i`: the `i`-th one the resumption path pops.
    pub fn frame_word(&self, i: usize) -> (r: u64)
        requires
            i < self.frame().len(),
        ensures
            r == pop_order(self.frame())[i as int],
    {
        self.stack.peek(i)
    }

    /// Captures the live extended register image into the XSAVE area, if
    /// the thread has one.
    pub(crate) fn save_xsave(&mut self, live: Ghost<Seq<u8>>)
        ensures
            old(self).xsave_spec() is None ==> *final(self) == *old(self),
            old(self).xsave_spec() is Some ==> {
                &&& final(self).xsave_spec() is Some
                &&& final(self).xsave_spec().unwrap().addr_spec() == old(self).xsave_spec().unwrap().addr_spec()
                &&& final(self).xsave_spec().unwrap().image_spec() == live@
                &&& final(self).saved_rsp_spec() == old(self).saved_rsp_spec()
                &&& final(self).fsbase_spec() == old(self).fsbase_spec()
                &&& final(self).interrupt_stack_spec() == old(self).interrupt_stack_spec()
                &&& final(self).syscall_stack_spec() == old(self).syscall_stack_spec()
                &&& final(self).frame() == old(self).frame()
                &&& final(self).frame_top() == old(self).frame_top()
            },
    {
        match &mut self.xsave_area {
            Some(area) => area.save_from(live),
            None => {},
        }
    }
}

} // verus!
