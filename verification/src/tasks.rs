//! The kernel's tasks: their saved context, the round-robin switch that the timer and
//! the yield call run, and the setup of a task's stack.
use vstd::prelude::*;
use crate::mem::PageMemory;
use crate::paging::{
    EarlyPageBump, PHYS_MAP, PageInitializer, map_pages_ok, map_pages_spec, page_count, rw_entry,
};
use crate::mem::PageTableEntry;
use crate::timer::SYS_COUNTER_FREQ_IN_SECOND;

verus! {

/// The context that a trap into the supervisor saves: the address to resume at, the
/// registers x1 to x31 and `sstatus`.
#[derive(Clone, Copy, Debug, PartialEq, Eq)]
pub struct TrapFrame {
    pub pc: u64,
    pub regs: [u64; 31],
    pub sstatus: u64,
}

/// A task: its registers (x0 to x31, x0 unused), its float registers, where it resumes,
/// its status bits, its tables, its id and the task that runs after it.
#[derive(Clone, Copy, Debug, PartialEq, Eq)]
pub struct Task {
    pub regs: [u64; 32],
    pub regs_float: [u64; 32],
    pub pc: u64,
    pub sstatus: u64,
    pub mem_map: u64,
    pub pid: u64,
    pub next_proc: Option<usize>,
}

/// The kernel's tasks and the one that runs, if any has run yet.
pub struct Scheduler {
    pub tasks: Vec<Task>,
    pub current: Option<usize>,
}

/// `frame` holds the registers and resume address that `task` saved.
pub open spec fn resumes(frame: TrapFrame, task: Task) -> bool {
    &&& frame.pc == task.pc
    &&& forall|i: int| 0 <= i < 31 ==> frame.regs@[i] == #[trigger] task.regs@[i + 1]
}

/// `task` keeps the registers and resume address of `frame`, and all else of `before`.
pub open spec fn saved(task: Task, before: Task, frame: TrapFrame) -> bool {
    &&& task.pc == frame.pc
    &&& task.regs@[0] == before.regs@[0]
    &&& forall|i: int| 0 <= i < 31 ==> #[trigger] task.regs@[i + 1] == frame.regs@[i]
    &&& task.regs_float == before.regs_float
    &&& task.sstatus == before.sstatus
    &&& task.mem_map == before.mem_map
    &&& task.pid == before.pid
    &&& task.next_proc == before.next_proc
}

/// What a switch does: `after` runs the task after the one of `before` (the first if none
/// ran), the running task of `before` keeps `frame`, the other tasks stay, and `resumed`
/// holds the context of the task that now runs (and the status bits of `frame`).
pub open spec fn switched(before: Scheduler, after: Scheduler, frame: TrapFrame, resumed: TrapFrame) -> bool {
    &&& after.current == Some(before.next_spec())
    &&& after.tasks.len() == before.tasks.len()
    &&& match before.current {
        None => after.tasks@ == before.tasks@,
        Some(c) => {
            &&& saved(after.tasks@[c as int], before.tasks@[c as int], frame)
            &&& forall|j: int| 0 <= j < before.tasks.len() && j != c ==> after.tasks@[j] == before.tasks@[j]
        },
    }
    &&& resumes(resumed, after.tasks@[before.next_spec() as int])
    &&& resumed.sstatus == frame.sstatus
}

impl Scheduler {
    /// The running task, if any, is a task, and so is the one after it.
    pub open spec fn can_switch(&self) -> bool {
        self.tasks.len() > 0 && match self.current {
            None => true,
            Some(c) => c < self.tasks.len() && match self.tasks@[c as int].next_proc {
                Some(n) => n < self.tasks.len(),
                None => false,
            },
        }
    }

    /// The task that runs after a switch.
    pub open spec fn next_spec(&self) -> usize {
        match self.current {
            None => 0,
            Some(c) => self.tasks@[c as int].next_proc.unwrap(),
        }
    }

    /// Switches from the running task to the one after it (the first task if none ran):
    /// saves `frame` into the running task, makes the next one run and loads its context
    /// into `frame`. Returns the time of the next timer interrupt, 1/120 s after `now`.
    pub fn switch_tasks(&mut self, frame: &mut TrapFrame, now: u64) -> (deadline: u64)
        requires
            old(self).can_switch(),
            now + SYS_COUNTER_FREQ_IN_SECOND / 120 <= u64::MAX,
        ensures
            switched(*old(self), *final(self), *old(frame), *final(frame)),
            deadline == now + SYS_COUNTER_FREQ_IN_SECOND / 120,
    {
        let next = match self.current {
            Some(c) => {
                let mut curr = self.tasks[c];
                let mut i: usize = 0;
                while i < 31
                    invariant
                        0 <= i <= 31,
                        c < self.tasks.len(),
                        curr.pc == self.tasks@[c as int].pc,
                        curr.regs@[0] == self.tasks@[c as int].regs@[0],
                        forall|k: int| 0 <= k < i ==> #[trigger] curr.regs@[k + 1] == frame.regs@[k],
                        curr.regs_float == self.tasks@[c as int].regs_float,
                        curr.sstatus == self.tasks@[c as int].sstatus,
                        curr.mem_map == self.tasks@[c as int].mem_map,
                        curr.pid == self.tasks@[c as int].pid,
                        curr.next_proc == self.tasks@[c as int].next_proc,
                    decreases 31 - i,
                {
                    curr.regs[i + 1] = frame.regs[i];
                    i = i + 1;
                }
                curr.pc = frame.pc;
                let n = curr.next_proc.unwrap();
                self.tasks.set(c, curr);
                n
            },
            None => 0,
        };
        self.current = Some(next);
        let curr = self.tasks[next];
        let mut i: usize = 0;
        while i < 31
            invariant
                0 <= i <= 31,
                frame.sstatus == old(frame).sstatus,
                forall|k: int| 0 <= k < i ==> #[trigger] frame.regs@[k] == curr.regs@[k + 1],
            decreases 31 - i,
        {
            frame.regs[i] = curr.regs[i + 1];
            i = i + 1;
        }
        frame.pc = curr.pc;
        now + SYS_COUNTER_FREQ_IN_SECOND / 120
    }
}

/// A task that starts at `pc` on a fresh stack of `stack_size` bytes (rounded up to whole
/// pages), taken from `bump` and mapped where it lies in the tables at `root` (reached
/// through `PHYS_MAP`). The stack pointer starts at the top of the stack.
pub fn make_task(
    pc: u64,
    stack_size: u64,
    sstatus: u64,
    root: u64,
    mem: &mut PageMemory,
    bump: &mut EarlyPageBump,
) -> (task: Task)
    requires
        stack_size + 0x1000 <= u64::MAX,
        (stack_size + 0xfff) / 4096 * 4096 + 0xfff <= u64::MAX,
        old(bump).0 + (stack_size + 0xfff) / 4096 * 4096 <= u64::MAX,
        root + PHYS_MAP <= u64::MAX,
        map_pages_ok(old(mem).view_mem(), (old(bump).0 + (stack_size + 0xfff) / 4096 * 4096) as u64, (root + PHYS_MAP) as u64, old(bump).0, old(bump).0, rw_entry().0, PHYS_MAP, page_count(((stack_size + 0xfff) / 4096 * 4096) as u64)),
    ensures
        ({
            let size = (stack_size + 0xfff) / 4096 * 4096;
            let s = map_pages_spec(old(mem).view_mem(), (old(bump).0 + size) as u64, (root + PHYS_MAP) as u64, old(bump).0, old(bump).0, rw_entry().0, PHYS_MAP, page_count(size as u64) as nat);
            &&& final(mem).view_mem() == s.0
            &&& final(bump).0 == s.1
            &&& task.regs@[2] == old(bump).0 + size
            &&& forall|i: int| 0 <= i < 32 && i != 2 ==> task.regs@[i] == 0
            &&& forall|i: int| 0 <= i < 32 ==> task.regs_float@[i] == 0
            &&& task.pc == pc
            &&& task.sstatus == sstatus
            &&& task.mem_map == root
            &&& task.pid == 1
            &&& task.next_proc == None::<usize>
        }),
{
    let size = (stack_size + 0x1000 - 1) / 0x1000 * 0x1000;
    let stack = bump.next_n_uninit(size / 0x1000);
    let mut init = PageInitializer::new(root, PHYS_MAP);
    let rw = PageTableEntry::COM_RW().bitor(PageTableEntry::DIRTY_ACCESSED());
    proof {
        crate::paging::lemma_entry_templates();
    }
    init.map_pages(mem, bump, stack, stack, size, rw);
    let mut tmp = Task {
        regs: [0; 32],
        regs_float: [0; 32],
        pc,
        sstatus,
        mem_map: root,
        pid: 1,
        next_proc: None,
    };
    tmp.regs[2] = stack + size;
    tmp
}

/// A task that is switched out and switched back in by the next switch resumes with the
/// registers and address it had when it was switched out.
pub proof fn law_switch_back_restores(s0: Scheduler, s1: Scheduler, s2: Scheduler, f0: TrapFrame, f1: TrapFrame, g0: TrapFrame, g1: TrapFrame)
    requires
        s0.can_switch(),
        s0.current is Some,
        s0.next_spec() != s0.current.unwrap(),
        switched(s0, s1, f0, f1),
        s1.next_spec() == s0.current.unwrap(),
        switched(s1, s2, g0, g1),
    ensures
        g1.pc == f0.pc,
        g1.regs == f0.regs,
{
    let a = s0.current.unwrap() as int;
    assert(s2.tasks@[a] == s1.tasks@[a]);
    assert forall|i: int| 0 <= i < 31 implies g1.regs@[i] == f0.regs@[i] by {
        assert(g1.regs@[i] == s2.tasks@[a].regs@[i + 1]);
    }
    assert(g1.regs@ =~= f0.regs@);
}

/// Each task runs after the one before it, and the first after the last.
pub open spec fn ring_linked(s: Scheduler) -> bool {
    forall|i: int| 0 <= i < s.tasks.len() ==> #[trigger] s.tasks@[i].next_proc == Some(((i + 1) % (s.tasks.len() as int)) as usize)
}

impl Scheduler {
    /// Links the tasks in a ring, in their order: each runs after the one before it, the
    /// first after the last. Nothing else of the tasks changes.
    pub fn link_ring(&mut self)
        ensures
            ring_linked(*final(self)),
            final(self).current == old(self).current,
            final(self).tasks.len() == old(self).tasks.len(),
            forall|i: int| 0 <= i < old(self).tasks.len() ==> (#[trigger] final(self).tasks@[i]) == (Task {
                next_proc: final(self).tasks@[i].next_proc,
                ..old(self).tasks@[i]
            }),
    {
        let n = self.tasks.len();
        let mut i: usize = 0;
        while i < n
            invariant
                i <= n,
                n == self.tasks.len(),
                self.current == old(self).current,
                forall|j: int| 0 <= j < i ==> #[trigger] self.tasks@[j].next_proc == Some(((j + 1) % (n as int)) as usize),
                forall|j: int| 0 <= j < n ==> (#[trigger] self.tasks@[j]) == (Task {
                    next_proc: self.tasks@[j].next_proc,
                    ..old(self).tasks@[j]
                }),
            decreases n - i,
        {
            let mut t = self.tasks[i];
            let next = if i + 1 == n { 0 } else { i + 1 };
            assert(next as int == (i + 1) % (n as int)) by (nonlinear_arith)
                requires
                    i < n,
                    next == (if i + 1 == n { 0 } else { i + 1 }),
            ;
            t.next_proc = Some(next);
            self.tasks.set(i, t);
            i = i + 1;
        }
    }
}

/// In a ring, a switch runs the task after the running one (the first if none ran yet),
/// and it can always be made.
pub proof fn law_ring_runs_next(s: Scheduler)
    requires
        ring_linked(s),
        s.tasks.len() > 0,
        s.current matches Some(c) ==> c < s.tasks.len(),
    ensures
        s.can_switch(),
        s.next_spec() == match s.current {
            None => 0,
            Some(c) => ((c + 1) % (s.tasks.len() as int)) as usize,
        },
{
    if let Some(c) = s.current {
        assert(s.tasks@[c as int].next_proc == Some(((c + 1) % (s.tasks.len() as int)) as usize));
        assert(((c + 1) % (s.tasks.len() as int)) < s.tasks.len()) by (nonlinear_arith)
            requires
                s.tasks.len() > 0,
        ;
    }
}

/// A switch keeps the ring: the task that ran keeps the task after it.
pub proof fn law_switch_keeps_ring(s0: Scheduler, s1: Scheduler, frame: TrapFrame, resumed: TrapFrame)
    requires
        ring_linked(s0),
        s0.can_switch(),
        switched(s0, s1, frame, resumed),
    ensures
        ring_linked(s1),
{
    assert forall|i: int| 0 <= i < s1.tasks.len() implies #[trigger] s1.tasks@[i].next_proc == Some(((i + 1) % (s1.tasks.len() as int)) as usize) by {
        assert(s0.tasks@[i].next_proc == Some(((i + 1) % (s0.tasks.len() as int)) as usize));
    }
}

} // verus!
