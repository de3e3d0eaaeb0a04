use kcontext::{
    switch_thread, ContextError, CpuLocal, EntryPoints, PagePool, SyscallFrame, Thread, ThreadGuard,
    UserVAddr, VAddr, KERNEL_STACK_SIZE, PAGE_SIZE, RFLAGS_IF_DISABLED, RFLAGS_IF_ENABLED, USER_CS64,
    USER_DS, USER_RPL, USER_RSP_POISON,
};

fn entries() -> EntryPoints {
    EntryPoints {
        kthread_entry: 0xffff_8000_0010_0000,
        userland_entry: 0xffff_8000_0010_1000,
        forked_child_entry: 0xffff_8000_0010_2000,
        signal_handler_entry: 0xffff_8000_0010_3000,
        direct_signal_handler_entry: 0xffff_8000_0010_4000,
    }
}

fn pool(addrs: &[u64]) -> PagePool {
    let mut p = PagePool::new();
    for a in addrs {
        assert!(p.add_page(*a));
    }
    p
}

fn pop_all(t: &Thread) -> Vec<u64> {
    (0..t.frame_len()).map(|i| t.frame_word(i)).collect()
}

fn frame_with(v: u64) -> SyscallFrame {
    SyscallFrame {
        rip: v,
        rsp: v,
        rflags: v,
        rax: v,
        rbx: v,
        rcx: v,
        rdx: v,
        rsi: v,
        rdi: v,
        rbp: v,
        r8: v,
        r9: v,
        r10: v,
        r11: v,
        r12: v,
        r13: v,
        r14: v,
        r15: v,
    }
}

fn distinct_frame() -> SyscallFrame {
    SyscallFrame {
        rip: 0x40_1000,
        rsp: 0x7fff_0000,
        rflags: 0x246,
        rax: 57,
        rbx: 0xb0,
        rcx: 0xc0,
        rdx: 0xd0,
        rsi: 0x51,
        rdi: 0xd1,
        rbp: 0xbb,
        r8: 0x8,
        r9: 0x9,
        r10: 0x10,
        r11: 0x11,
        r12: 0x12,
        r13: 0x13,
        r14: 0x14,
        r15: 0x15,
    }
}

#[test]
fn kthread_frame_pops_in_order() {
    let e = entries();
    let mut pages = pool(&[0x10_0000, 0x20_0000, 0x30_0000]);
    let t = Thread::new_kthread(VAddr::new(0xffff_8000_0040_0000), VAddr::new(0x50_0000), &e, &mut pages);
    assert_eq!(
        pop_all(&t),
        vec![RFLAGS_IF_DISABLED, e.kthread_entry, 0, 0, 0, 0, 0, 0, 0xffff_8000_0040_0000]
    );
    assert_eq!(t.saved_rsp(), 0x50_0000 - 72);
    assert_eq!(t.interrupt_stack().value(), 0x30_0000);
    assert_eq!(t.syscall_stack().value(), 0x20_0000);
    assert!(t.xsave_area().is_none());
    assert_eq!(t.fsbase(), 0);
    assert_eq!(pages.len(), 1);
}

#[test]
fn user_thread_layers_hold_entry_and_stack() {
    let e = entries();
    let mut pages = pool(&[0x10_0000, 0x20_0000, 0x30_0000]);
    let t = Thread::new_user_thread(
        UserVAddr::new(0x40_1234),
        UserVAddr::new(0x7fff_fff0),
        VAddr::new(0x90_0000),
        &e,
        &mut pages,
    );
    let words = pop_all(&t);
    assert_eq!(words.len(), 13);
    assert_eq!(words[0], RFLAGS_IF_DISABLED);
    assert_eq!(words[1], e.userland_entry);
    assert_eq!(&words[2..8], &[0, 0, 0, 0, 0, 0]);
    assert_eq!(words[8], 0x40_1234);
    assert_eq!(words[9], USER_CS64 | USER_RPL);
    assert_eq!(words[10], RFLAGS_IF_ENABLED);
    assert_eq!(words[11], 0x7fff_fff0);
    assert_eq!(words[12], USER_DS | USER_RPL);
    assert_eq!(words[9], 43);
    assert_eq!(words[12], 35);
    assert_eq!(t.saved_rsp(), 0x90_0000 - 104);
    let area = t.xsave_area().unwrap();
    assert_eq!(area.addr().value(), 0x10_0000);
    assert_eq!(pages.len(), 0);
}

fn check_fork(frame: SyscallFrame) {
    let e = entries();
    let mut pages = pool(&[0x10_0000, 0x20_0000, 0x30_0000]);
    let mut parent = Thread::new_kthread(VAddr::new(0x1000), VAddr::new(0x50_0000), &e, &mut pages);
    parent.set_fsbase(0x7f00_dead_0000);
    let mut pages = pool(&[0xa0_0000, 0xb0_0000, 0xc0_0000, 0xd0_0000]);
    let child = parent.fork(&frame, &e, &mut pages).unwrap();
    assert_eq!(child.fsbase(), 0x7f00_dead_0000);
    assert_eq!(child.xsave_area().unwrap().addr().value(), 0xd0_0000);
    assert_eq!(child.interrupt_stack().value(), 0xb0_0000);
    assert_eq!(child.syscall_stack().value(), 0xa0_0000);
    assert_eq!(child.saved_rsp(), 0xc0_0000 + PAGE_SIZE - 168);
    let w = pop_all(&child);
    assert_eq!(
        w,
        vec![
            RFLAGS_IF_DISABLED,
            e.forked_child_entry,
            frame.r15,
            frame.r14,
            frame.r13,
            frame.r12,
            frame.rbx,
            frame.rbp,
            frame.rdx,
            frame.rdi,
            frame.rsi,
            frame.r8,
            frame.r9,
            frame.r10,
            frame.rip,
            frame.rflags,
            frame.rip,
            USER_CS64 | USER_RPL,
            frame.rflags,
            frame.rsp,
            USER_DS | USER_RPL,
        ]
    );
    assert_eq!(pages.len(), 0);
}

#[test]
fn fork_reproduces_distinct_registers() {
    check_fork(distinct_frame());
}

#[test]
fn fork_reproduces_zero_registers() {
    check_fork(frame_with(0));
}

#[test]
fn fork_reproduces_all_ones_registers() {
    check_fork(frame_with(u64::MAX));
}

#[test]
fn fork_without_enough_pages_fails_and_takes_none() {
    let e = entries();
    let mut pages = pool(&[0x10_0000, 0x20_0000]);
    let parent = Thread::new_idle_thread(&mut pages);
    let mut pages = pool(&[0xa0_0000, 0xb0_0000, 0xc0_0000]);
    let r = parent.fork(&distinct_frame(), &e, &mut pages);
    assert_eq!(r.err(), Some(ContextError::NoMemory));
    assert_eq!(pages.len(), 3);
}

#[test]
fn idle_thread_has_no_frame() {
    let mut pages = pool(&[0x10_0000, 0x20_0000]);
    let t = Thread::new_idle_thread(&mut pages);
    assert_eq!(t.saved_rsp(), 0);
    assert_eq!(t.frame_len(), 0);
    assert!(t.xsave_area().is_none());
    assert_eq!(t.interrupt_stack().value(), 0x20_0000);
    assert_eq!(t.syscall_stack().value(), 0x10_0000);
}

#[test]
fn page_pool_refuses_bad_addresses() {
    let mut p = PagePool::new();
    assert!(!p.add_page(0));
    assert!(!p.add_page(0x1234));
    assert!(!p.add_page(u64::MAX - 4095));
    assert!(p.add_page(u64::MAX - 8191));
    assert!(!p.add_page(u64::MAX - 8191));
    assert!(p.contains(u64::MAX - 8191));
    assert_eq!(p.len(), 1);
    assert_eq!(p.alloc_page(), Some(VAddr::new(u64::MAX - 8191)));
    assert_eq!(p.alloc_page(), None);
}

fn user_thread(pages: &[u64], kernel_sp: u64) -> Thread {
    let mut pages = pool(pages);
    Thread::new_user_thread(UserVAddr::new(0x40_0000), UserVAddr::new(0x7000_0000), VAddr::new(kernel_sp), &entries(), &mut pages)
}

#[test]
fn switch_there_and_back_moves_registers_through_buffers() {
    let mut a = user_thread(&[0x10_0000, 0x20_0000, 0x30_0000], 0x90_0000);
    let mut b = user_thread(&[0x40_0000, 0x50_0000, 0x60_0000], 0xa0_0000);
    let mut cpu = CpuLocal::new(0x7);
    let steps = switch_thread(&mut a, &mut b, &mut cpu);
    assert_eq!(steps.save_to, Some(VAddr::new(0x10_0000)));
    assert_eq!(steps.restore_from, Some(VAddr::new(0x40_0000)));
    assert_eq!(cpu.rsp0(), 0x50_0000 + KERNEL_STACK_SIZE);
    assert_eq!(cpu.tss_rsp0(), 0x60_0000 + KERNEL_STACK_SIZE);
    let steps = switch_thread(&mut b, &mut a, &mut cpu);
    assert_eq!(steps.save_to, Some(VAddr::new(0x40_0000)));
    assert_eq!(steps.restore_from, Some(VAddr::new(0x10_0000)));
    assert_eq!(cpu.rsp0(), 0x20_0000 + KERNEL_STACK_SIZE);
    assert_eq!(cpu.tss_rsp0(), 0x30_0000 + KERNEL_STACK_SIZE);
    assert_eq!(cpu.xsave_mask(), 0x7);
}

#[test]
fn switch_without_xsave_areas_keeps_registers() {
    let e = entries();
    let mut pages = pool(&[0x10_0000, 0x20_0000, 0x30_0000, 0x40_0000]);
    let mut idle = Thread::new_idle_thread(&mut pages);
    let mut k = Thread::new_kthread(VAddr::new(0x1000), VAddr::new(0x90_0000), &e, &mut pages);
    k.set_fsbase(0x1234_5000);
    let mut cpu = CpuLocal::new(0x3);
    let steps = switch_thread(&mut idle, &mut k, &mut cpu);
    assert_eq!(steps.save_to, None);
    assert_eq!(steps.restore_from, None);
    assert!(idle.xsave_area().is_none());
    assert_eq!(cpu.rsp3(), USER_RSP_POISON);
    assert_eq!(cpu.rsp3(), 0xbaad_5a5a_5b5b_baad);
    assert_eq!(cpu.fsbase(), 0x1234_5000);
    assert_eq!(cpu.rsp0(), 0x10_0000 + KERNEL_STACK_SIZE);
    assert_eq!(cpu.tss_rsp0(), 0x20_0000 + KERNEL_STACK_SIZE);
}

#[test]
fn self_signal_releases_lock() {
    let e = entries();
    let t = user_thread(&[0x10_0000, 0x20_0000, 0x30_0000], 0x90_0000);
    let before = t.saved_rsp();
    let mut g = ThreadGuard::lock(t);
    assert!(g.is_held());
    let h = Thread::set_signal_entry(&mut g, 0x40_5000, 0x7fff_1000, 1, 2, 3, true, &e).unwrap();
    assert!(!g.is_held());
    assert_eq!(h.entry(), e.direct_signal_handler_entry);
    let words: Vec<u64> = (0..h.len()).map(|i| h.word(i)).collect();
    assert_eq!(words, vec![0x7fff_1000, 0x40_5000, RFLAGS_IF_ENABLED, 1, 2, 3]);
    assert_eq!(g.thread().saved_rsp(), before);
}

#[test]
fn queued_signal_keeps_prior_frame_beneath() {
    let e = entries();
    let t = user_thread(&[0x10_0000, 0x20_0000, 0x30_0000], 0x90_0000);
    let before = t.saved_rsp();
    let prior = pop_all(&t);
    let mut g = ThreadGuard::lock(t);
    let r = Thread::set_signal_entry(&mut g, 0x40_5000, 0x7fff_1000, 11, 22, 33, false, &e);
    assert!(r.is_none());
    assert!(!g.is_held());
    let t = g.into_inner();
    assert_eq!(t.saved_rsp() + 112, before);
    let w = pop_all(&t);
    assert_eq!(
        &w[..14],
        &[RFLAGS_IF_DISABLED, e.signal_handler_entry, 0, 0, 0, 0, 0, 0, 33, 22, 11, RFLAGS_IF_ENABLED, 0x40_5000, 0x7fff_1000]
    );
    assert_eq!(&w[14..], &prior[..]);
}

#[test]
fn stack_pointer_slot_forgets_frame() {
    let e = entries();
    let mut t = user_thread(&[0x10_0000, 0x20_0000, 0x30_0000], 0x90_0000);
    assert_eq!(*t.saved_rsp_mut(), 0x90_0000 - 104);
    *t.saved_rsp_mut() = 0x8f_ff00;
    assert_eq!(t.saved_rsp(), 0x8f_ff00);
    assert_eq!(t.frame_len(), 0);
    let mut g = ThreadGuard::lock(t);
    assert!(Thread::set_signal_entry(&mut g, 0x40_5000, 0x7fff_1000, 4, 5, 6, false, &e).is_none());
    assert!(!g.is_held());
    let t = g.into_inner();
    assert_eq!(t.saved_rsp(), 0x8f_ff00 - 112);
    assert_eq!(t.frame_len(), 14);
    assert_eq!(t.frame_word(13), 0x7fff_1000);
    assert_eq!(t.frame_word(0), RFLAGS_IF_DISABLED);
}

#[test]
fn kthread_on_lowest_stack_fits() {
    let mut pages = pool(&[0x10_0000, 0x20_0000]);
    let t = Thread::new_kthread(VAddr::new(0x5000), VAddr::new(72), &entries(), &mut pages);
    assert_eq!(t.saved_rsp(), 0);
    assert_eq!(t.frame_word(8), 0x5000);
}
