use milkv::mem::PageMemory;
use milkv::paging::{EarlyPageBump, PHYS_MAP};
use milkv::tasks::{make_task, Scheduler, Task, TrapFrame};
use milkv::trap::{
    exception_description, machine_exception_description, mtrap_action, plic_action, scause_cause, strap_action,
    ExceptionKind, InterruptHandler, InterruptKind, MachineAction, MachineHandlers, MachinePlicAction, PlicAction,
    SupervisorAction, SupervisorFatal, TrapCause, TrapHandlers,
};

fn task(pc: u64, tag: u64, next: usize) -> Task {
    let mut regs = [0u64; 32];
    for (i, r) in regs.iter_mut().enumerate() {
        *r = tag * 100 + i as u64;
    }
    Task { regs, regs_float: [0; 32], pc, sstatus: 0, mem_map: 0, pid: tag, next_proc: Some(next) }
}

#[test]
fn first_switch_starts_task_zero() {
    let mut s = Scheduler { tasks: vec![task(0x100, 1, 1), task(0x200, 2, 0)], current: None };
    let mut f = TrapFrame { pc: 0x999, regs: [7; 31], sstatus: 0x22 };
    let deadline = s.switch_tasks(&mut f, 1000);
    assert_eq!(deadline, 1000 + 25_000_000 / 120);
    assert_eq!(s.current, Some(0));
    assert_eq!(f.pc, 0x100);
    assert_eq!(f.regs[0], 101);
    assert_eq!(f.regs[30], 131);
    assert_eq!(f.sstatus, 0x22);
    // nothing was saved: no task was running
    assert_eq!(s.tasks[0].pc, 0x100);
}

#[test]
fn switch_saves_and_round_trip_restores() {
    let mut s = Scheduler { tasks: vec![task(0x100, 1, 1), task(0x200, 2, 0)], current: Some(0) };
    let mut f = TrapFrame { pc: 0x123, regs: [5; 31], sstatus: 0 };
    s.switch_tasks(&mut f, 0);
    assert_eq!(s.current, Some(1));
    assert_eq!(s.tasks[0].pc, 0x123);
    assert_eq!(s.tasks[0].regs[1], 5);
    assert_eq!(s.tasks[0].regs[0], 100);
    assert_eq!(f.pc, 0x200);
    let mut g = f;
    g.regs = [9; 31];
    s.switch_tasks(&mut g, 0);
    assert_eq!(s.current, Some(0));
    assert_eq!(g.pc, 0x123);
    assert_eq!(g.regs, [5; 31]);
}

#[test]
fn make_task_maps_its_stack() {
    let mut mem = PageMemory::new();
    let mut bump = EarlyPageBump(0x8100_0000);
    let t = make_task(0x8020_0000, 0x1800, 3, 0x8000_0000, &mut mem, &mut bump);
    assert_eq!(t.pc, 0x8020_0000);
    assert_eq!(t.regs[2], 0x8100_0000 + 0x2000);
    assert_eq!(t.regs[1], 0);
    assert_eq!(t.pid, 1);
    assert_eq!(t.next_proc, None);
    assert_eq!(t.mem_map, 0x8000_0000);
    // two stack pages, then the tables that map them
    assert_eq!(bump.0, 0x8100_2000 + 2 * 4096);
    assert!(mem.read(0x8000_0000u64.wrapping_add(PHYS_MAP), 2).valid());
}

#[test]
fn scause_decodes_through_riscv() {
    assert_eq!(scause_cause(13), TrapCause::Exception(ExceptionKind::LoadPageFault));
    assert_eq!(scause_cause(8), TrapCause::Exception(ExceptionKind::UserEnvCall));
    assert_eq!(scause_cause(10), TrapCause::Exception(ExceptionKind::Unknown));
    assert_eq!(scause_cause((1usize << 63) | 5), TrapCause::Interrupt(InterruptKind::SupervisorTimer));
    assert_eq!(scause_cause((1usize << 63) | 9), TrapCause::Interrupt(InterruptKind::SupervisorExternal));
    assert_eq!(scause_cause((1usize << 63) | 7), TrapCause::Interrupt(InterruptKind::Unknown));
}

#[test]
fn supervisor_dispatch() {
    let mut h = TrapHandlers::new();
    let frame = TrapFrame { pc: 0, regs: { let mut r = [0; 31]; r[16] = 5; r }, sstatus: 0 };
    let ecall = TrapCause::Exception(ExceptionKind::SupervisorEnvCall);
    assert_eq!(strap_action(&h, ecall, &frame), SupervisorAction::Fatal(SupervisorFatal::UnknownEcall));
    h.add_ecall_handler(5, 0x10, 0x20);
    assert_eq!(strap_action(&h, ecall, &frame), SupervisorAction::Call(InterruptHandler { func: 0x20, ctx: 0x10 }));
    let timer = TrapCause::Interrupt(InterruptKind::SupervisorTimer);
    assert_eq!(strap_action(&h, timer, &frame), SupervisorAction::Fatal(SupervisorFatal::Interrupt(InterruptKind::SupervisorTimer)));
    h.add_timer_handler(1, 2);
    assert_eq!(strap_action(&h, timer, &frame), SupervisorAction::Call(InterruptHandler { func: 2, ctx: 1 }));
    assert_eq!(strap_action(&h, TrapCause::Interrupt(InterruptKind::SupervisorExternal), &frame), SupervisorAction::ClaimPlic);
    assert_eq!(
        strap_action(&h, TrapCause::Exception(ExceptionKind::Breakpoint), &frame),
        SupervisorAction::Fatal(SupervisorFatal::Exception(ExceptionKind::Breakpoint))
    );
    let far = TrapFrame { pc: 0, regs: { let mut r = [0; 31]; r[16] = 600; r }, sstatus: 0 };
    assert_eq!(strap_action(&h, ecall, &far), SupervisorAction::Fatal(SupervisorFatal::UnknownEcall));
}

#[test]
fn supervisor_plic() {
    let mut h = TrapHandlers::new();
    h.add_plic_handler(44, 3, 4);
    assert_eq!(plic_action(&h, 0), PlicAction::Nothing);
    assert_eq!(plic_action(&h, 44), PlicAction::CallAndComplete(InterruptHandler { func: 4, ctx: 3 }));
    assert_eq!(plic_action(&h, 200), PlicAction::Fatal);
}

#[test]
fn descriptions() {
    assert_eq!(exception_description(ExceptionKind::LoadPageFault), "Page fault on load");
    assert_eq!(exception_description(ExceptionKind::Unknown), "Unknown exception");
    assert_eq!(machine_exception_description(6), "Store address mimsaligned");
    assert_eq!(machine_exception_description(14), "Unknown exception");
}

#[test]
fn machine_dispatch() {
    assert_eq!(mtrap_action(11), MachineAction::Return);
    assert_eq!(mtrap_action(13), MachineAction::PageFault);
    assert_eq!(mtrap_action(2), MachineAction::Fatal);
    assert_eq!(mtrap_action((1 << 63) | 7), MachineAction::Timer);
    assert_eq!(mtrap_action((1 << 63) | 0xb), MachineAction::ClaimPlic);
    assert_eq!(mtrap_action((1 << 63) | 3), MachineAction::FatalInterrupt);
    let mut h = MachineHandlers::new();
    assert_eq!(h.plic_action(0), MachinePlicAction::NonePending);
    assert_eq!(h.plic_action(9), MachinePlicAction::Unknown);
    h.add_plic_handler(9, 0xabc);
    assert_eq!(h.plic_action(9), MachinePlicAction::CallAndComplete(0xabc));
}

#[test]
fn ring_of_three_tasks_runs_round_robin() {
    let mut s = Scheduler { tasks: vec![task(0x100, 1, 7), task(0x200, 2, 7), task(0x300, 3, 7)], current: None };
    s.link_ring();
    assert_eq!(s.tasks[0].next_proc, Some(1));
    assert_eq!(s.tasks[1].next_proc, Some(2));
    assert_eq!(s.tasks[2].next_proc, Some(0));
    assert_eq!(s.tasks[2].pc, 0x300);
    let mut f = TrapFrame { pc: 0, regs: [0; 31], sstatus: 0 };
    let mut order = Vec::new();
    for _ in 0..4 {
        s.switch_tasks(&mut f, 0);
        order.push(f.pc);
    }
    assert_eq!(order, vec![0x100, 0x200, 0x300, 0x100]);
}

#[test]
fn free_memory_after_early_pages() {
    let layout = milkv::paging::KernelLayout {
        code_size: 0,
        ro_size: 0,
        data_size: 0,
        bss_size: 0,
        total_size: 0,
        phys_start: 0x8020_0000,
        phys_size: 0x0400_0000,
        virt_start: 0,
    };
    assert_eq!(milkv::paging::free_memory_kb(&layout, 0x8030_0000), (0x0400_0000 - 0x10_0000) / 1024);
    assert_eq!(milkv::paging::free_memory_kb(&layout, 0x8020_0000), 0x0400_0000 / 1024);
}
