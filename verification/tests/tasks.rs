use user_thread::context::UserContext;
use user_thread::task::{
    classify_trap, spawn, spawn_thread, PageTableSwitchWrapper, RunAction, RunEvent, RunState,
    TrapKind,
};
use user_thread::process::ProcessTable;
use user_thread::thread::{Thread, ThreadInner, ThreadTable};

fn thread(tid: usize, rip: usize) -> Thread {
    let mut cx = UserContext::new();
    cx.set_ip(rip);
    Thread {
        inner: ThreadInner { context: Some(cx), clear_child_tid: 0 },
        vm: 1,
        proc: 0,
        tid,
        sig_mask: 0,
    }
}

fn trapped(trap_num: usize) -> UserContext {
    let mut cx = UserContext::new();
    cx.trap_num = trap_num;
    cx
}

#[test]
fn traps_are_classified_by_number() {
    assert_eq!(classify_trap(0x100), TrapKind::Syscall);
    assert_eq!(classify_trap(0x20), TrapKind::Irq { timer: true, serial: false });
    assert_eq!(classify_trap(0x24), TrapKind::Irq { timer: false, serial: true });
    assert_eq!(classify_trap(0x21), TrapKind::Irq { timer: false, serial: false });
    assert_eq!(classify_trap(0x3f), TrapKind::Irq { timer: false, serial: false });
    assert_eq!(classify_trap(0x40), TrapKind::Reserved);
    assert_eq!(classify_trap(0x1f), TrapKind::Reserved);
    assert_eq!(classify_trap(0xe), TrapKind::PageFault);
    assert_eq!(classify_trap(0), TrapKind::Reserved);
    assert_eq!(classify_trap(0x101), TrapKind::Reserved);
    assert_eq!(classify_trap(usize::MAX), TrapKind::Reserved);
}

#[test]
fn spawn_makes_a_ready_task() {
    let t = thread(4, 0x1000);
    let task = spawn(&t, 0xabc000);
    assert_eq!(
        task,
        PageTableSwitchWrapper {
            inner: RunState::Ready,
            vmtoken: 0xabc000,
            thread: 4,
            polled_on: None
        }
    );
    assert_eq!(spawn_thread(RunState::Ready, 0xabc000, &t), task);
}

#[test]
fn poll_sets_and_clears_the_current_thread() {
    let t = thread(4, 0x1000);
    let mut task = spawn(&t, 0xabc000);
    let mut processors: Vec<Option<usize>> = vec![None, Some(9), None];
    let token = task.begin_poll(&mut processors, 2);
    assert_eq!(token, 0xabc000);
    assert_eq!(processors, vec![None, Some(9), Some(4)]);
    assert_eq!(task.polled_on, Some(2));
    task.end_poll(&mut processors);
    assert_eq!(processors, vec![None, Some(9), None]);
    assert_eq!(task.polled_on, None);
}

#[test]
fn timer_interrupt_resumes_the_same_context() {
    let mut t = thread(1, 0x1000);
    let mut task = spawn(&t, 7);
    let mut processors: Vec<Option<usize>> = vec![None];
    task.begin_poll(&mut processors, 0);
    let start = t.inner.context.unwrap();
    assert_eq!(task.step(&mut t, RunEvent::Resume), RunAction::EnterUser(start));
    assert_eq!(t.inner.context, None);
    assert_eq!(task.inner, RunState::InUser);
    let mut cx = start;
    cx.trap_num = 0x20;
    assert_eq!(
        task.step(&mut t, RunEvent::Trapped(cx)),
        RunAction::Irq { cx, timer: true, serial: false }
    );
    assert_eq!(task.inner, RunState::Handling);
    assert_eq!(t.inner.context, None);
    assert_eq!(task.step(&mut t, RunEvent::Handled { cx, exit: false }), RunAction::Continue);
    assert_eq!(task.inner, RunState::Ready);
    assert_eq!(t.inner.context, Some(cx));
    assert_eq!(task.step(&mut t, RunEvent::Resume), RunAction::EnterUser(cx));
    task.end_poll(&mut processors);
}

#[test]
fn each_trap_asks_for_its_handler() {
    for (num, expected) in [
        (0x100usize, RunAction::Syscall(trapped(0x100))),
        (0xe, RunAction::PageFault(trapped(0xe))),
        (0x24, RunAction::Irq { cx: trapped(0x24), timer: false, serial: true }),
        (0x3, RunAction::Ignore(trapped(0x3))),
    ] {
        let mut t = thread(1, 0x1000);
        let mut task = spawn(&t, 7);
        let mut processors: Vec<Option<usize>> = vec![None];
        task.begin_poll(&mut processors, 0);
        task.step(&mut t, RunEvent::Resume);
        assert_eq!(task.step(&mut t, RunEvent::Trapped(trapped(num))), expected);
    }
}

#[test]
fn exit_is_terminal() {
    let mut t = thread(1, 0x1000);
    let mut task = spawn(&t, 7);
    let mut processors: Vec<Option<usize>> = vec![None];
    task.begin_poll(&mut processors, 0);
    task.step(&mut t, RunEvent::Resume);
    let cx = trapped(0x100);
    assert_eq!(task.step(&mut t, RunEvent::Trapped(cx)), RunAction::Syscall(cx));
    assert_eq!(task.inner, RunState::InSyscall);
    assert_eq!(task.step(&mut t, RunEvent::Handled { cx, exit: true }), RunAction::Exit);
    assert_eq!(task.inner, RunState::Exited);
    assert_eq!(t.inner.context, Some(cx));
    for event in [RunEvent::Resume, RunEvent::Trapped(cx), RunEvent::Handled { cx, exit: false }] {
        assert_eq!(task.step(&mut t, event), RunAction::Exit);
        assert_eq!(task.inner, RunState::Exited);
        assert_eq!(t.inner.context, Some(cx));
    }
}

#[test]
fn events_out_of_turn_are_rejected() {
    let mut t = thread(1, 0x1000);
    let mut task = spawn(&t, 7);
    let mut processors: Vec<Option<usize>> = vec![None];
    task.begin_poll(&mut processors, 0);
    let before = t;
    assert_eq!(task.step(&mut t, RunEvent::Trapped(trapped(0x20))), RunAction::Rejected);
    assert_eq!(
        task.step(&mut t, RunEvent::Handled { cx: trapped(0x20), exit: true }),
        RunAction::Rejected
    );
    assert_eq!(t, before);
    assert_eq!(task.inner, RunState::Ready);
    task.step(&mut t, RunEvent::Resume);
    assert_eq!(task.step(&mut t, RunEvent::Resume), RunAction::Rejected);
    assert_eq!(task.inner, RunState::InUser);
}

#[test]
fn page_fault_is_resolved_and_the_thread_resumes() {
    let mut t = thread(1, 0x1000);
    let mut task = spawn(&t, 7);
    let mut processors: Vec<Option<usize>> = vec![None];
    task.begin_poll(&mut processors, 0);
    task.step(&mut t, RunEvent::Resume);
    let mut cx = trapped(0xe);
    cx.general.rip = 0x1008;
    assert_eq!(task.step(&mut t, RunEvent::Trapped(cx)), RunAction::PageFault(cx));
    assert_eq!(task.step(&mut t, RunEvent::Handled { cx, exit: false }), RunAction::Continue);
    assert_eq!(task.step(&mut t, RunEvent::Resume), RunAction::EnterUser(cx));
}

#[test]
fn the_context_is_in_one_place_at_every_step() {
    let mut t = thread(1, 0x1000);
    let mut task = spawn(&t, 7);
    let mut processors: Vec<Option<usize>> = vec![None];
    task.begin_poll(&mut processors, 0);
    let cx = trapped(0x100);
    let events = [
        RunEvent::Resume,
        RunEvent::Resume,
        RunEvent::Trapped(cx),
        RunEvent::Trapped(cx),
        RunEvent::Handled { cx, exit: false },
        RunEvent::Resume,
        RunEvent::Trapped(cx),
        RunEvent::Handled { cx, exit: true },
        RunEvent::Resume,
    ];
    for event in events {
        task.step(&mut t, event);
        let in_frame = task.inner == RunState::InUser
            || task.inner == RunState::InSyscall
            || task.inner == RunState::Handling;
        assert_eq!(in_frame, t.inner.context.is_none());
    }
    assert_eq!(task.inner, RunState::Exited);
}

#[test]
fn a_step_in_the_table_changes_only_the_context() {
    let mut threads = ThreadTable::new();
    let mut procs = ProcessTable::new();
    let a = Thread::new_user(&mut threads, &mut procs, 1, 0x1000, 0x2000, "/a");
    let b = a.fork(&UserContext::new(), 2, &mut threads, &mut procs);
    let mut task = spawn(&b, 7);
    let mut processors: Vec<Option<usize>> = vec![None];
    task.begin_poll(&mut processors, 0);
    let cx = b.inner.context.unwrap();
    assert_eq!(task.step_in(&mut threads, &procs, RunEvent::Resume), RunAction::EnterUser(cx));
    assert_eq!(threads.get(1), Some(a));
    let held = threads.get(2).unwrap();
    assert_eq!(held.inner.context, None);
    assert_eq!(held, Thread { inner: ThreadInner { context: None, ..b.inner }, ..b });
    assert_eq!(threads.len(), 2);

    let mut stray = spawn(&thread(9, 0), 7);
    stray.begin_poll(&mut processors, 0);
    assert_eq!(stray.step_in(&mut threads, &procs, RunEvent::Resume), RunAction::Rejected);
    assert_eq!(stray.inner, RunState::Ready);
}

#[test]
fn only_a_system_call_ends_the_loop() {
    for num in [0x20usize, 0x24, 0x3f, 0xe, 0x3] {
        let mut t = thread(1, 0x1000);
        let mut task = spawn(&t, 7);
        let mut processors: Vec<Option<usize>> = vec![None];
        task.begin_poll(&mut processors, 0);
        task.step(&mut t, RunEvent::Resume);
        let cx = trapped(num);
        task.step(&mut t, RunEvent::Trapped(cx));
        assert_eq!(task.inner, RunState::Handling);
        assert_eq!(task.step(&mut t, RunEvent::Handled { cx, exit: true }), RunAction::Continue);
        assert_eq!(task.inner, RunState::Ready);
        assert_eq!(task.step(&mut t, RunEvent::Resume), RunAction::EnterUser(cx));
    }
}
