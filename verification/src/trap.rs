//! What the trap handlers decide: the cause of a trap from the cause register, which
//! registered handler runs, and which traps are fatal and with what description.
use vstd::prelude::*;
use riscv::register::scause::{Exception, Interrupt};

verus! {

/// The exceptions that a supervisor trap can report.
#[derive(Clone, Copy, Debug, PartialEq, Eq, Structural)]
pub enum ExceptionKind {
    InstructionMisaligned,
    InstructionFault,
    IllegalInstruction,
    Breakpoint,
    LoadMisaligned,
    LoadFault,
    StoreMisaligned,
    StoreFault,
    UserEnvCall,
    SupervisorEnvCall,
    InstructionPageFault,
    LoadPageFault,
    StorePageFault,
    Unknown,
}

/// The interrupts that a supervisor trap can report.
#[derive(Clone, Copy, Debug, PartialEq, Eq, Structural)]
pub enum InterruptKind {
    SupervisorSoft,
    SupervisorTimer,
    SupervisorExternal,
    Unknown,
}

/// The cause of a supervisor trap.
#[derive(Clone, Copy, Debug, PartialEq, Eq, Structural)]
pub enum TrapCause {
    Interrupt(InterruptKind),
    Exception(ExceptionKind),
}

/// The exception of a code, as the privileged specification numbers them.
pub open spec fn exception_spec(code: usize) -> ExceptionKind {
    if code == 0 {
        ExceptionKind::InstructionMisaligned
    } else if code == 1 {
        ExceptionKind::InstructionFault
    } else if code == 2 {
        ExceptionKind::IllegalInstruction
    } else if code == 3 {
        ExceptionKind::Breakpoint
    } else if code == 4 {
        ExceptionKind::LoadMisaligned
    } else if code == 5 {
        ExceptionKind::LoadFault
    } else if code == 6 {
        ExceptionKind::StoreMisaligned
    } else if code == 7 {
        ExceptionKind::StoreFault
    } else if code == 8 {
        ExceptionKind::UserEnvCall
    } else if code == 9 {
        ExceptionKind::SupervisorEnvCall
    } else if code == 12 {
        ExceptionKind::InstructionPageFault
    } else if code == 13 {
        ExceptionKind::LoadPageFault
    } else if code == 15 {
        ExceptionKind::StorePageFault
    } else {
        ExceptionKind::Unknown
    }
}

/// The interrupt of a code, as the privileged specification numbers them.
pub open spec fn interrupt_spec(code: usize) -> InterruptKind {
    if code == 1 {
        InterruptKind::SupervisorSoft
    } else if code == 5 {
        InterruptKind::SupervisorTimer
    } else if code == 9 {
        InterruptKind::SupervisorExternal
    } else {
        InterruptKind::Unknown
    }
}

/// The codes of the exceptions that `riscv::register::scause::Exception` names.
pub open spec fn known_exception(code: usize) -> bool {
    code <= 9 || code == 12 || code == 13 || code == 15
}

/// `riscv::register::scause::Exception::from`, by the discriminant of the variant that it
/// gives: its source numbers each variant by its code (0 to 9, 12, 13 and 15) and gives
/// `Unknown`, which comes after 15 and so is numbered 16, for any other code.
#[verifier::external_body]
fn exception_number(code: usize) -> (r: usize)
    ensures
        r == (if known_exception(code) { code } else { 16 }),
{
    Exception::from(code) as usize
}

/// The exception of a code, as `riscv` names it.
fn exception_of(code: usize) -> (r: ExceptionKind)
    ensures
        r == exception_spec(code),
{
    match exception_number(code) {
        0 => ExceptionKind::InstructionMisaligned,
        1 => ExceptionKind::InstructionFault,
        2 => ExceptionKind::IllegalInstruction,
        3 => ExceptionKind::Breakpoint,
        4 => ExceptionKind::LoadMisaligned,
        5 => ExceptionKind::LoadFault,
        6 => ExceptionKind::StoreMisaligned,
        7 => ExceptionKind::StoreFault,
        8 => ExceptionKind::UserEnvCall,
        9 => ExceptionKind::SupervisorEnvCall,
        12 => ExceptionKind::InstructionPageFault,
        13 => ExceptionKind::LoadPageFault,
        15 => ExceptionKind::StorePageFault,
        _ => ExceptionKind::Unknown,
    }
}

/// `riscv::register::scause::Interrupt::from`: the interrupt of a code, as its source
/// matches the codes 1, 5 and 9, and `Unknown` for any other.
#[verifier::external_body]
fn interrupt_of(code: usize) -> (r: InterruptKind)
    ensures
        r == interrupt_spec(code),
{
    match Interrupt::from(code) {
        Interrupt::SupervisorSoft => InterruptKind::SupervisorSoft,
        Interrupt::SupervisorTimer => InterruptKind::SupervisorTimer,
        Interrupt::SupervisorExternal => InterruptKind::SupervisorExternal,
        Interrupt::Unknown => InterruptKind::Unknown,
    }
}

/// The bit of the cause register that marks an interrupt: its highest.
pub open spec fn interrupt_bit() -> usize {
    1usize << (usize::BITS - 1)
}

/// The cause that the bits of the cause register give: the highest bit tells an
/// interrupt from an exception, the other bits are the code.
pub open spec fn cause_spec(bits: usize) -> TrapCause {
    let code = bits & !interrupt_bit();
    if bits & interrupt_bit() != 0 {
        TrapCause::Interrupt(interrupt_spec(code))
    } else {
        TrapCause::Exception(exception_spec(code))
    }
}

/// The cause of a trap from the bits of `scause`.
pub fn scause_cause(bits: usize) -> (r: TrapCause)
    ensures
        r == cause_spec(bits),
{
    let top: usize = 1usize << (usize::BITS - 1);
    let code = bits & !top;
    if bits & top != 0 {
        TrapCause::Interrupt(interrupt_of(code))
    } else {
        TrapCause::Exception(exception_of(code))
    }
}

} // verus!

verus! {

/// The number of interrupt ids of the PLIC.
pub const MAX_INT_ID: usize = 128;

/// The number of system calls that can have a handler.
pub const ECALL_COUNT: usize = 500;

/// A registered handler: the address of its function (0 for none) and of its context.
#[derive(Clone, Copy, Debug, PartialEq, Eq, Structural)]
pub struct InterruptHandler {
    pub func: u64,
    pub ctx: u64,
}

impl InterruptHandler {
    /// No handler.
    pub fn new() -> (r: Self)
        ensures
            r.func == 0,
            r.ctx == 0,
    {
        Self { func: 0, ctx: 0 }
    }
}

/// The handlers of the supervisor: one per PLIC interrupt id, one for the timer, one per
/// system call.
pub struct TrapHandlers {
    pub plic: Vec<InterruptHandler>,
    pub timer: InterruptHandler,
    pub ecall: Vec<InterruptHandler>,
}

impl TrapHandlers {
    pub open spec fn wf(&self) -> bool {
        self.plic.len() == MAX_INT_ID && self.ecall.len() == ECALL_COUNT
    }

    /// No handler anywhere.
    pub fn new() -> (r: Self)
        ensures
            r.wf(),
            forall|i: int| 0 <= i < MAX_INT_ID ==> r.plic@[i] == (InterruptHandler { func: 0, ctx: 0 }),
            forall|i: int| 0 <= i < ECALL_COUNT ==> r.ecall@[i] == (InterruptHandler { func: 0, ctx: 0 }),
            r.timer == (InterruptHandler { func: 0, ctx: 0 }),
    {
        let mut plic: Vec<InterruptHandler> = Vec::new();
        while plic.len() < MAX_INT_ID
            invariant
                plic.len() <= MAX_INT_ID,
                forall|i: int| 0 <= i < plic.len() ==> plic@[i] == (InterruptHandler { func: 0, ctx: 0 }),
            decreases MAX_INT_ID - plic.len(),
        {
            plic.push(InterruptHandler::new());
        }
        let mut ecall: Vec<InterruptHandler> = Vec::new();
        while ecall.len() < ECALL_COUNT
            invariant
                ecall.len() <= ECALL_COUNT,
                forall|i: int| 0 <= i < ecall.len() ==> ecall@[i] == (InterruptHandler { func: 0, ctx: 0 }),
            decreases ECALL_COUNT - ecall.len(),
        {
            ecall.push(InterruptHandler::new());
        }
        TrapHandlers { plic, timer: InterruptHandler::new(), ecall }
    }

    /// Registers the handler of the PLIC interrupt `id`.
    pub fn add_plic_handler(&mut self, id: u32, ctx: u64, func: u64)
        requires
            old(self).wf(),
            (id as usize) < MAX_INT_ID,
        ensures
            final(self).wf(),
            final(self).plic@ == old(self).plic@.update(id as int, (InterruptHandler { func, ctx })),
            final(self).timer == old(self).timer,
            final(self).ecall@ == old(self).ecall@,
    {
        self.plic.set(id as usize, InterruptHandler { func, ctx });
    }

    /// Registers the handler of the timer interrupt.
    pub fn add_timer_handler(&mut self, ctx: u64, func: u64)
        ensures
            final(self).timer == (InterruptHandler { func, ctx }),
            final(self).plic@ == old(self).plic@,
            final(self).ecall@ == old(self).ecall@,
    {
        self.timer = InterruptHandler { func, ctx };
    }

    /// Registers the handler of the system call `call_id`.
    pub fn add_ecall_handler(&mut self, call_id: usize, ctx: u64, func: u64)
        requires
            old(self).wf(),
            call_id < ECALL_COUNT,
        ensures
            final(self).wf(),
            final(self).ecall@ == old(self).ecall@.update(call_id as int, (InterruptHandler { func, ctx })),
            final(self).timer == old(self).timer,
            final(self).plic@ == old(self).plic@,
    {
        self.ecall.set(call_id, InterruptHandler { func, ctx });
    }
}

/// Why a supervisor trap cannot go on.
#[derive(Clone, Copy, Debug, PartialEq, Eq, Structural)]
pub enum SupervisorFatal {
    /// An exception other than a system call.
    Exception(ExceptionKind),
    /// A system call whose number has no handler.
    UnknownEcall,
    /// An interrupt that nothing handles.
    Interrupt(InterruptKind),
}

/// What the supervisor does with a trap.
#[derive(Clone, Copy, Debug, PartialEq, Eq, Structural)]
pub enum SupervisorAction {
    /// Run this handler with the frame, then return from the trap.
    Call(InterruptHandler),
    /// Claim the pending interrupt of the PLIC and go on with `plic_action`.
    ClaimPlic,
    /// Report and reset the board.
    Fatal(SupervisorFatal),
}

/// What the supervisor does with a trap of `cause`, whose frame holds `ecall_id` in a7.
pub open spec fn strap_action_spec(h: TrapHandlers, cause: TrapCause, ecall_id: u64) -> SupervisorAction {
    match cause {
        TrapCause::Exception(ExceptionKind::UserEnvCall) | TrapCause::Exception(ExceptionKind::SupervisorEnvCall) =>
            if ecall_id < ECALL_COUNT && h.ecall@[ecall_id as int].func != 0 {
                SupervisorAction::Call(h.ecall@[ecall_id as int])
            } else {
                SupervisorAction::Fatal(SupervisorFatal::UnknownEcall)
            },
        TrapCause::Exception(e) => SupervisorAction::Fatal(SupervisorFatal::Exception(e)),
        TrapCause::Interrupt(InterruptKind::SupervisorTimer) =>
            if h.timer.func != 0 {
                SupervisorAction::Call(h.timer)
            } else {
                SupervisorAction::Fatal(SupervisorFatal::Interrupt(InterruptKind::SupervisorTimer))
            },
        TrapCause::Interrupt(InterruptKind::SupervisorExternal) => SupervisorAction::ClaimPlic,
        TrapCause::Interrupt(i) => SupervisorAction::Fatal(SupervisorFatal::Interrupt(i)),
    }
}

/// Decides what the supervisor does with a trap of `cause` taken with `frame`.
pub fn strap_action(h: &TrapHandlers, cause: TrapCause, frame: &crate::tasks::TrapFrame) -> (r: SupervisorAction)
    requires
        h.wf(),
    ensures
        r == strap_action_spec(*h, cause, frame.regs@[16]),
{
    match cause {
        TrapCause::Exception(ExceptionKind::UserEnvCall) | TrapCause::Exception(ExceptionKind::SupervisorEnvCall) => {
            let id = frame.regs[17 - 1];
            if id < ECALL_COUNT as u64 {
                let handler = h.ecall[id as usize];
                if handler.func != 0 {
                    return SupervisorAction::Call(handler);
                }
            }
            SupervisorAction::Fatal(SupervisorFatal::UnknownEcall)
        },
        TrapCause::Exception(e) => SupervisorAction::Fatal(SupervisorFatal::Exception(e)),
        TrapCause::Interrupt(InterruptKind::SupervisorTimer) => {
            if h.timer.func != 0 {
                SupervisorAction::Call(h.timer)
            } else {
                SupervisorAction::Fatal(SupervisorFatal::Interrupt(InterruptKind::SupervisorTimer))
            }
        },
        TrapCause::Interrupt(InterruptKind::SupervisorExternal) => SupervisorAction::ClaimPlic,
        TrapCause::Interrupt(i) => SupervisorAction::Fatal(SupervisorFatal::Interrupt(i)),
    }
}

/// What the supervisor does with a claimed PLIC interrupt.
#[derive(Clone, Copy, Debug, PartialEq, Eq, Structural)]
pub enum PlicAction {
    /// No interrupt was pending: return from the trap.
    Nothing,
    /// Run this handler, then mark the interrupt complete.
    CallAndComplete(InterruptHandler),
    /// The id is beyond the table: report and reset the board.
    Fatal,
}

/// Decides what the supervisor does with the claimed PLIC interrupt `pending`. An id in
/// the table must have a handler: the supervisor calls what is registered for it, and
/// an id with none would be a call through address 0.
pub fn plic_action(h: &TrapHandlers, pending: u32) -> (r: PlicAction)
    requires
        h.wf(),
        pending != 0 && (pending as int) < MAX_INT_ID ==> h.plic@[pending as int].func != 0,
    ensures
        pending == 0 ==> r == PlicAction::Nothing,
        pending != 0 && (pending as int) < MAX_INT_ID ==> r == PlicAction::CallAndComplete(h.plic@[pending as int]),
        pending != 0 && (pending as int) >= MAX_INT_ID ==> r == PlicAction::Fatal,
{
    if pending != 0 {
        if (pending as usize) < h.plic.len() {
            PlicAction::CallAndComplete(h.plic[pending as usize])
        } else {
            PlicAction::Fatal
        }
    } else {
        PlicAction::Nothing
    }
}

/// The description of an exception, as the supervisor reports it.
pub open spec fn exception_description_spec(e: ExceptionKind) -> Seq<char> {
    match e {
        ExceptionKind::InstructionMisaligned => "Instruction address misaligned"@,
        ExceptionKind::InstructionFault => "Instruction access fault"@,
        ExceptionKind::IllegalInstruction => "Illegal instruction"@,
        ExceptionKind::Breakpoint => "Breakpoint"@,
        ExceptionKind::LoadMisaligned => "Load address misaligned"@,
        ExceptionKind::LoadFault => "Load access fault"@,
        ExceptionKind::StoreMisaligned => "Store address misaligned"@,
        ExceptionKind::StoreFault => "Store access fault"@,
        ExceptionKind::UserEnvCall => "Env call from U-mode"@,
        ExceptionKind::SupervisorEnvCall => "Env call from S-mode"@,
        ExceptionKind::InstructionPageFault => "Instruction page fault"@,
        ExceptionKind::LoadPageFault => "Page fault on load"@,
        ExceptionKind::StorePageFault => "Page fault on store"@,
        ExceptionKind::Unknown => "Unknown exception"@,
    }
}

/// The description of an exception, as the supervisor reports it.
pub fn exception_description(e: ExceptionKind) -> (r: &'static str)
    ensures
        r@ == exception_description_spec(e),
{
    match e {
        ExceptionKind::InstructionMisaligned => "Instruction address misaligned",
        ExceptionKind::InstructionFault => "Instruction access fault",
        ExceptionKind::IllegalInstruction => "Illegal instruction",
        ExceptionKind::Breakpoint => "Breakpoint",
        ExceptionKind::LoadMisaligned => "Load address misaligned",
        ExceptionKind::LoadFault => "Load access fault",
        ExceptionKind::StoreMisaligned => "Store address misaligned",
        ExceptionKind::StoreFault => "Store access fault",
        ExceptionKind::UserEnvCall => "Env call from U-mode",
        ExceptionKind::SupervisorEnvCall => "Env call from S-mode",
        ExceptionKind::InstructionPageFault => "Instruction page fault",
        ExceptionKind::LoadPageFault => "Page fault on load",
        ExceptionKind::StorePageFault => "Page fault on store",
        ExceptionKind::Unknown => "Unknown exception",
    }
}

} // verus!

verus! {

/// The ticks that the machine timer interrupt of the boot loader waits: 250 ms.
pub const MACHINE_TIMER_INTERVAL: u64 = 25 * 250 * 1000;

/// What the boot loader does with a machine trap.
#[derive(Clone, Copy, Debug, PartialEq, Eq, Structural)]
pub enum MachineAction {
    /// An environment call from machine mode: report the hart and return.
    Return,
    /// A page fault: show the tables that `satp` selects, report and reset.
    PageFault,
    /// Any other exception: report and reset.
    Fatal,
    /// The timer: toggle the LED, report the address and wait `MACHINE_TIMER_INTERVAL`
    /// more ticks.
    Timer,
    /// Claim the pending interrupt of the PLIC and go on with `plic_action`.
    ClaimPlic,
    /// Any other interrupt: report and reset.
    FatalInterrupt,
}

/// What the boot loader does with a trap whose cause register holds `mcause`.
pub open spec fn mtrap_action_spec(mcause: u64) -> MachineAction {
    let code = mcause & 0x7fff_ffff_ffff_ffff;
    if mcause >> 63u64 == 0 {
        if code == 11 {
            MachineAction::Return
        } else if code == 12 || code == 13 || code == 15 {
            MachineAction::PageFault
        } else {
            MachineAction::Fatal
        }
    } else if code == 7 {
        MachineAction::Timer
    } else if code == 0xb {
        MachineAction::ClaimPlic
    } else {
        MachineAction::FatalInterrupt
    }
}

/// Decides what the boot loader does with a trap whose cause register holds `mcause`.
pub fn mtrap_action(mcause: u64) -> (r: MachineAction)
    ensures
        r == mtrap_action_spec(mcause),
{
    let sync = mcause & (1u64 << 63u64) == 0;
    let code = mcause & !(1u64 << 63u64);
    assert((mcause & (1u64 << 63u64) == 0) == (mcause >> 63u64 == 0) && mcause & !(1u64 << 63u64) == mcause & 0x7fff_ffff_ffff_ffff)
        by (bit_vector);
    if sync {
        if code == 11 {
            MachineAction::Return
        } else if code == 12 || code == 13 || code == 15 {
            MachineAction::PageFault
        } else {
            MachineAction::Fatal
        }
    } else {
        if code == 0x7 {
            MachineAction::Timer
        } else if code == 0xb {
            MachineAction::ClaimPlic
        } else {
            MachineAction::FatalInterrupt
        }
    }
}

/// The description of a machine exception code, as the boot loader reports it.
pub open spec fn machine_exception_description_spec(code: u64) -> Seq<char> {
    if code == 0 {
        "Instruction address misaligned"@
    } else if code == 1 {
        "Instruction access fault"@
    } else if code == 2 {
        "Illegal instruction"@
    } else if code == 3 {
        "Breakpoint"@
    } else if code == 4 {
        "Load address misaligned"@
    } else if code == 5 {
        "Load access fault"@
    } else if code == 6 {
        "Store address mimsaligned"@
    } else if code == 7 {
        "Store access fault"@
    } else if code == 8 {
        "Env call from U-mode"@
    } else if code == 9 {
        "Env call from S-mode"@
    } else if code == 12 {
        "Instruction page fault"@
    } else if code == 13 {
        "Page fault on load"@
    } else if code == 15 {
        "Page fault on store"@
    } else {
        "Unknown exception"@
    }
}

/// The description of a machine exception code, as the boot loader reports it (an
/// environment call from machine mode, which returns, has that of an unknown one).
pub fn machine_exception_description(code: u64) -> (r: &'static str)
    ensures
        r@ == machine_exception_description_spec(code),
{
    match code {
        0 => "Instruction address misaligned",
        1 => "Instruction access fault",
        2 => "Illegal instruction",
        3 => "Breakpoint",
        4 => "Load address misaligned",
        5 => "Load access fault",
        6 => "Store address mimsaligned",
        7 => "Store access fault",
        8 => "Env call from U-mode",
        9 => "Env call from S-mode",
        12 => "Instruction page fault",
        13 => "Page fault on load",
        15 => "Page fault on store",
        _ => "Unknown exception",
    }
}

/// The handlers of the boot loader: the address of a function (0 for none) per PLIC
/// interrupt id.
pub struct MachineHandlers {
    pub plic: Vec<u64>,
}

/// What the boot loader does with a claimed PLIC interrupt.
#[derive(Clone, Copy, Debug, PartialEq, Eq, Structural)]
pub enum MachinePlicAction {
    /// Run the function at this address, then mark the interrupt complete.
    CallAndComplete(u64),
    /// The id has no handler: report and reset.
    Unknown,
    /// The PLIC had nothing pending: report and reset.
    NonePending,
}

impl MachineHandlers {
    pub open spec fn wf(&self) -> bool {
        self.plic.len() == MAX_INT_ID
    }

    /// No handler anywhere.
    pub fn new() -> (r: Self)
        ensures
            r.wf(),
            forall|i: int| 0 <= i < MAX_INT_ID ==> r.plic@[i] == 0,
    {
        let mut plic: Vec<u64> = Vec::new();
        while plic.len() < MAX_INT_ID
            invariant
                plic.len() <= MAX_INT_ID,
                forall|i: int| 0 <= i < plic.len() ==> plic@[i] == 0,
            decreases MAX_INT_ID - plic.len(),
        {
            plic.push(0);
        }
        MachineHandlers { plic }
    }

    /// Registers the function at `handler` for the PLIC interrupt `id`.
    pub fn add_plic_handler(&mut self, id: u32, handler: u64)
        requires
            old(self).wf(),
            (id as usize) < MAX_INT_ID,
        ensures
            final(self).wf(),
            final(self).plic@ == old(self).plic@.update(id as int, handler),
    {
        self.plic.set(id as usize, handler);
    }

    /// Decides what the boot loader does with the claimed PLIC interrupt `pending`.
    pub fn plic_action(&self, pending: u32) -> (r: MachinePlicAction)
        requires
            self.wf(),
        ensures
            pending == 0 ==> r == MachinePlicAction::NonePending,
            pending != 0 && (pending as int) < MAX_INT_ID && self.plic@[pending as int] != 0
                ==> r == MachinePlicAction::CallAndComplete(self.plic@[pending as int]),
            pending != 0 && ((pending as int) >= MAX_INT_ID || self.plic@[pending as int] == 0)
                ==> r == MachinePlicAction::Unknown,
    {
        if pending == 0 {
            return MachinePlicAction::NonePending;
        }
        if (pending as usize) < self.plic.len() {
            let ptr = self.plic[pending as usize];
            if ptr != 0 {
                return MachinePlicAction::CallAndComplete(ptr);
            }
        }
        MachinePlicAction::Unknown
    }
}

} // verus!
