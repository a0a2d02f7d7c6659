//! The loop that runs a thread in user mode, as a state machine, and the
//! wrapper that makes the thread's address space the active one whenever the
//! loop is polled.
//!
//! The library decides; its caller enters user mode, dispatches system calls
//! and talks to the hardware, and reports back what happened.

use crate::context::UserContext;
use crate::invariants::{consistent, lemma_context_change_keeps_consistent};
use crate::process::ProcessTable;
use crate::thread::{Thread, ThreadTable, Tid};
use vstd::prelude::*;

verus! {

/// The trap number of a system call.
pub const TRAP_SYSCALL: usize = 0x100;

/// The first trap number of an external interrupt.
pub const TRAP_IRQ_FIRST: usize = 0x20;

/// The last trap number of an external interrupt.
pub const TRAP_IRQ_LAST: usize = 0x3f;

/// The trap number of the timer interrupt.
pub const TRAP_TIMER: usize = 0x20;

/// The trap number of the interrupt of the first serial port.
pub const TRAP_COM1: usize = 0x24;

/// The trap number of a page fault.
pub const TRAP_PAGE_FAULT: usize = 0xe;

/// Why a thread left user mode.
#[derive(Clone, Copy, Debug, PartialEq, Eq, Structural)]
pub enum TrapKind {
    Syscall,
    /// An external interrupt. It is acknowledged; the timer's then drives the
    /// scheduler's tick, and the serial port's reads a byte.
    Irq { timer: bool, serial: bool },
    PageFault,
    /// Any other trap: nothing is done about it here.
    Reserved,
}

/// The kind of the trap with the number `trap_num`.
pub open spec fn trap_kind(trap_num: usize) -> TrapKind {
    if trap_num == TRAP_SYSCALL {
        TrapKind::Syscall
    } else if TRAP_IRQ_FIRST <= trap_num <= TRAP_IRQ_LAST {
        TrapKind::Irq { timer: trap_num == TRAP_TIMER, serial: trap_num == TRAP_COM1 }
    } else if trap_num == TRAP_PAGE_FAULT {
        TrapKind::PageFault
    } else {
        TrapKind::Reserved
    }
}

pub fn classify_trap(trap_num: usize) -> (kind: TrapKind)
    ensures
        kind == trap_kind(trap_num),
{
    if trap_num == TRAP_SYSCALL {
        TrapKind::Syscall
    } else if TRAP_IRQ_FIRST <= trap_num && trap_num <= TRAP_IRQ_LAST {
        TrapKind::Irq { timer: trap_num == TRAP_TIMER, serial: trap_num == TRAP_COM1 }
    } else if trap_num == TRAP_PAGE_FAULT {
        TrapKind::PageFault
    } else {
        TrapKind::Reserved
    }
}

/// Where the loop of one thread stands.
#[derive(Clone, Copy, Debug, PartialEq, Eq, Structural)]
pub enum RunState {
    /// Between two runs: the thread holds its context.
    Ready,
    /// The thread is in user mode: the loop holds the context.
    InUser,
    /// The thread's system call is being dispatched, which may suspend the
    /// task: the loop holds the context.
    InSyscall,
    /// Another trap of the thread is being handled: the loop holds the
    /// context.
    Handling,
    /// The loop has ended: the thread holds its context and never runs again.
    Exited,
}

/// What the caller reports to the loop.
#[derive(Clone, Copy, Debug, PartialEq, Eq, Structural)]
pub enum RunEvent {
    /// The loop may go on.
    Resume,
    /// The thread came back from user mode with this context.
    Trapped(UserContext),
    /// The trap has been handled and left this context; `exit` is what the
    /// system call handler returned. After any other trap it counts for
    /// nothing: only a system call ends the loop.
    Handled { cx: UserContext, exit: bool },
}

/// What the loop asks of its caller.
#[derive(Clone, Copy, Debug, PartialEq, Eq, Structural)]
pub enum RunAction {
    /// Run this context in user mode, and report `Trapped`.
    EnterUser(UserContext),
    /// Dispatch the system call of this context, which may suspend, and
    /// report `Handled` with its answer.
    Syscall(UserContext),
    /// Acknowledge the interrupt at the local interrupt controller, tick the
    /// timer and read the serial port as the flags say, and report `Handled`.
    Irq { cx: UserContext, timer: bool, serial: bool },
    /// Read the fault address, let the address space resolve the fault, and
    /// report `Handled`.
    PageFault(UserContext),
    /// Nothing to do for this trap: report `Handled`.
    Ignore(UserContext),
    /// The trap is dealt with: report `Resume`.
    Continue,
    /// The loop has ended: drop the task.
    Exit,
    /// The event does not fit the state: nothing has changed.
    Rejected,
}

/// What the loop asks for a thread that came back with `cx`.
pub open spec fn action_for_trap(cx: UserContext) -> RunAction {
    match trap_kind(cx.trap_num) {
        TrapKind::Syscall => RunAction::Syscall(cx),
        TrapKind::Irq { timer, serial } => RunAction::Irq { cx, timer, serial },
        TrapKind::PageFault => RunAction::PageFault(cx),
        TrapKind::Reserved => RunAction::Ignore(cx),
    }
}

/// Whether the loop holds the thread's context in `state`.
pub open spec fn frame_holds_context(state: RunState) -> bool {
    state == RunState::InUser || state == RunState::InSyscall || state == RunState::Handling
}

/// The context is in exactly one place: with the thread, or with the loop.
pub open spec fn context_in_one_place(state: RunState, thread: Thread) -> bool {
    frame_holds_context(state) <==> thread.inner.context is None
}

/// The state after `event` in `state`, the thread and the action asked for.
pub open spec fn run_step(state: RunState, thread: Thread, event: RunEvent) -> (
    RunState,
    Thread,
    RunAction,
) {
    match (state, event) {
        (RunState::Ready, RunEvent::Resume) => match thread.inner.context {
            Some(cx) => (
                RunState::InUser,
                Thread {
                    inner: crate::thread::ThreadInner { context: None, ..thread.inner },
                    ..thread
                },
                RunAction::EnterUser(cx),
            ),
            None => (state, thread, RunAction::Rejected),
        },
        (RunState::InUser, RunEvent::Trapped(cx)) => (
            if trap_kind(cx.trap_num) == TrapKind::Syscall {
                RunState::InSyscall
            } else {
                RunState::Handling
            },
            thread,
            action_for_trap(cx),
        ),
        (RunState::InSyscall, RunEvent::Handled { cx, exit }) => (
            if exit {
                RunState::Exited
            } else {
                RunState::Ready
            },
            Thread {
                inner: crate::thread::ThreadInner { context: Some(cx), ..thread.inner },
                ..thread
            },
            if exit {
                RunAction::Exit
            } else {
                RunAction::Continue
            },
        ),
        (RunState::Handling, RunEvent::Handled { cx, exit }) => (
            RunState::Ready,
            Thread {
                inner: crate::thread::ThreadInner { context: Some(cx), ..thread.inner },
                ..thread
            },
            RunAction::Continue,
        ),
        (RunState::Exited, _) => (state, thread, RunAction::Exit),
        _ => (state, thread, RunAction::Rejected),
    }
}

/// The task of one thread: its loop, behind the switch to its address space.
#[derive(Clone, Copy, Debug, PartialEq, Eq, Structural)]
pub struct PageTableSwitchWrapper {
    /// Where the loop stands.
    pub inner: RunState,
    /// The root of the thread's page table, as it was when the task was made.
    pub vmtoken: usize,
    /// The thread the task runs.
    pub thread: Tid,
    /// The processor on which the task is being polled, if it is.
    pub polled_on: Option<usize>,
}

/// The task that runs `thread`, whose address space has the page table
/// `vmtoken`. The caller hands it to the executor.
pub fn spawn(thread: &Thread, vmtoken: usize) -> (task: PageTableSwitchWrapper)
    ensures
        task == (PageTableSwitchWrapper {
            inner: RunState::Ready,
            vmtoken,
            thread: thread.tid,
            polled_on: None,
        }),
{
    spawn_thread(RunState::Ready, vmtoken, thread)
}

/// Puts a loop that stands at `inner` behind the switch to the address
/// space of `thread`.
pub fn spawn_thread(inner: RunState, vmtoken: usize, thread: &Thread) -> (task:
    PageTableSwitchWrapper)
    ensures
        task == (PageTableSwitchWrapper {
            inner,
            vmtoken,
            thread: thread.tid,
            polled_on: None,
        }),
{
    PageTableSwitchWrapper { inner, vmtoken, thread: thread.tid, polled_on: None }
}

impl PageTableSwitchWrapper {
    /// Opens a poll on the processor `cpu_id`: notes the task's thread as the
    /// one that runs there, and returns the page table to install before the
    /// loop takes a step.
    pub fn begin_poll(&mut self, processors: &mut Vec<Option<Tid>>, cpu_id: usize) -> (token:
        usize)
        requires
            cpu_id < old(processors)@.len(),
            old(self).polled_on is None,
        ensures
            token == old(self).vmtoken,
            *final(self) == (PageTableSwitchWrapper { polled_on: Some(cpu_id), ..*old(self) }),
            final(processors)@ == old(processors)@.update(cpu_id as int, Some(old(self).thread)),
    {
        processors[cpu_id] = Some(self.thread);
        self.polled_on = Some(cpu_id);
        self.vmtoken
    }

    /// Closes the poll: no thread runs on its processor now.
    pub fn end_poll(&mut self, processors: &mut Vec<Option<Tid>>)
        requires
            old(self).polled_on is Some,
            old(self).polled_on->Some_0 < old(processors)@.len(),
        ensures
            *final(self) == (PageTableSwitchWrapper { polled_on: None, ..*old(self) }),
            final(processors)@ == old(processors)@.update(
                old(self).polled_on->Some_0 as int,
                None,
            ),
    {
        let cpu_id: usize = self.polled_on.unwrap();
        processors[cpu_id] = None;
        self.polled_on = None;
    }

    /// One step of the loop, which is taken only within a poll: takes what
    /// the caller reports and says what to do next. `thread` is the record of
    /// the task's thread.
    pub fn step(&mut self, thread: &mut Thread, event: RunEvent) -> (action: RunAction)
        requires
            old(self).polled_on is Some,
        ensures
            (final(self).inner, *final(thread), action) == run_step(
                old(self).inner,
                *old(thread),
                event,
            ),
            final(self).vmtoken == old(self).vmtoken,
            final(self).thread == old(self).thread,
            final(self).polled_on == old(self).polled_on,
            context_in_one_place(old(self).inner, *old(thread)) ==> context_in_one_place(
                final(self).inner,
                *final(thread),
            ),
            action is EnterUser ==> old(self).inner == RunState::Ready,
            old(self).inner == RunState::Exited ==> final(self).inner == RunState::Exited,
    {
        match (self.inner, event) {
            (RunState::Ready, RunEvent::Resume) => {
                if thread.inner.context.is_some() {
                    let cx = thread.begin_running();
                    self.inner = RunState::InUser;
                    RunAction::EnterUser(cx)
                } else {
                    RunAction::Rejected
                }
            },
            (RunState::InUser, RunEvent::Trapped(cx)) => {
                let kind = classify_trap(cx.trap_num);
                self.inner = match kind {
                    TrapKind::Syscall => RunState::InSyscall,
                    _ => RunState::Handling,
                };
                match kind {
                    TrapKind::Syscall => RunAction::Syscall(cx),
                    TrapKind::Irq { timer, serial } => RunAction::Irq { cx, timer, serial },
                    TrapKind::PageFault => RunAction::PageFault(cx),
                    TrapKind::Reserved => RunAction::Ignore(cx),
                }
            },
            (RunState::InSyscall, RunEvent::Handled { cx, exit }) => {
                thread.end_running(cx);
                if exit {
                    self.inner = RunState::Exited;
                    RunAction::Exit
                } else {
                    self.inner = RunState::Ready;
                    RunAction::Continue
                }
            },
            (RunState::Handling, RunEvent::Handled { cx, exit: _ }) => {
                thread.end_running(cx);
                self.inner = RunState::Ready;
                RunAction::Continue
            },
            (RunState::Exited, _) => RunAction::Exit,
            _ => RunAction::Rejected,
        }
    }
}

impl PageTableSwitchWrapper {
    /// One step of the loop on the record that the table holds of the task's
    /// thread. Where the table holds none, nothing changes and the event is
    /// rejected. The tables `threads` and `procs` still fit together after
    /// the step if they did before.
    pub fn step_in(
        &mut self,
        threads: &mut ThreadTable,
        procs: &ProcessTable,
        event: RunEvent,
    ) -> (action: RunAction)
        requires
            old(self).polled_on is Some,
            old(threads).wf(),
        ensures
            final(threads).wf(),
            final(self).vmtoken == old(self).vmtoken,
            final(self).thread == old(self).thread,
            final(self).polled_on == old(self).polled_on,
            !old(threads).contains(old(self).thread) ==> {
                &&& action == RunAction::Rejected
                &&& *final(self) == *old(self)
                &&& *final(threads) == *old(threads)
            },
            old(threads).contains(old(self).thread) ==> exists|i: int|
                0 <= i < old(threads).entries@.len() && (#[trigger] old(threads).entries@[i]).tid
                    == old(self).thread && final(threads).entries@ == old(threads).entries@.update(
                    i,
                    final(threads).entries@[i],
                ) && (final(self).inner, final(threads).entries@[i], action) == run_step(
                    old(self).inner,
                    old(threads).entries@[i],
                    event,
                ),
            consistent(*old(threads), *procs) ==> consistent(*final(threads), *procs),
    {
        match threads.position(self.thread) {
            Some(i) => {
                let mut record = threads.entries[i];
                let action = self.step(&mut record, event);
                threads.entries.set(i, record);
                proof {
                    let before = old(threads).entries@;
                    let after = threads.entries@;
                    assert(after[i as int] == record);
                    assert(record.tid == before[i as int].tid);
                    assert(record.proc == before[i as int].proc);
                    crate::thread::lemma_same_tids_keep_wf(*old(threads), *threads);
                    if consistent(*old(threads), *procs) {
                        lemma_context_change_keeps_consistent(
                            *old(threads),
                            *threads,
                            *procs,
                            i as int,
                        );
                    }
                }
                action
            },
            None => RunAction::Rejected,
        }
    }
}

/// Once the loop has ended it stays ended, and asks for no further run in
/// user mode, whatever is reported to it.
pub proof fn lemma_exit_is_terminal(thread: Thread, event: RunEvent)
    ensures
        run_step(RunState::Exited, thread, event).0 == RunState::Exited,
        run_step(RunState::Exited, thread, event).1 == thread,
        run_step(RunState::Exited, thread, event).2 == RunAction::Exit,
{
}

/// When the system call handler says that the thread exits, the loop ends
/// with the context back in the thread.
pub proof fn lemma_exit_ends_loop(thread: Thread, cx: UserContext)
    ensures
        run_step(RunState::InSyscall, thread, RunEvent::Handled { cx, exit: true }).0
            == RunState::Exited,
        run_step(RunState::InSyscall, thread, RunEvent::Handled { cx, exit: true }).1.inner.context
            == Some(cx),
{
}

/// The loop ends only on the word of the system call handler: a step ends
/// it only from `InSyscall`, on `Handled` with `exit` set.
pub proof fn lemma_only_a_syscall_ends_the_loop(state: RunState, thread: Thread, event: RunEvent)
    requires
        state != RunState::Exited,
        run_step(state, thread, event).0 == RunState::Exited,
    ensures
        state == RunState::InSyscall,
        event matches RunEvent::Handled { exit, .. } && exit,
{
}

/// The loop asks for a run in user mode only from `Ready`, and hands out
/// the very context the thread held.
pub proof fn lemma_enter_user_only_when_ready(state: RunState, thread: Thread, event: RunEvent)
    requires
        run_step(state, thread, event).2 is EnterUser,
    ensures
        state == RunState::Ready,
        event == RunEvent::Resume,
        thread.inner.context == Some(run_step(state, thread, event).2->EnterUser_0),
        run_step(state, thread, event).1.inner.context is None,
{
}

/// Every step keeps the context in exactly one place.
pub proof fn lemma_context_exclusive(state: RunState, thread: Thread, event: RunEvent)
    requires
        context_in_one_place(state, thread),
    ensures
        context_in_one_place(run_step(state, thread, event).0, run_step(state, thread, event).1),
{
}

} // verus!
