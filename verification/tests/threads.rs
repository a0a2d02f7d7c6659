use user_thread::context::{UserContext, INITIAL_RFLAGS};
use user_thread::process::{
    FileEntry, FileTarget, OpenOptions, ProcessTable, SignalAction, Siginfo, INIT, RTMAX,
};
use user_thread::thread::{Thread, ThreadInner, ThreadTable};

fn detached(proc: usize) -> Thread {
    Thread {
        inner: ThreadInner { context: Some(UserContext::new()), clear_child_tid: 0 },
        vm: 0,
        proc,
        tid: 0,
        sig_mask: 0,
    }
}

#[test]
fn first_thread_gets_init() {
    let mut table = ThreadTable::new();
    let t = detached(0).add_to_table(&mut table);
    assert_eq!(t.tid, INIT);
    assert_eq!(t.tid, 1);
    assert_eq!(table.len(), 1);
    assert_eq!(table.get(1), Some(t));
    assert_eq!(table.get(0), None);
    assert_eq!(table.get(2), None);
}

#[test]
fn tids_are_handed_out_in_order() {
    let mut table = ThreadTable::new();
    for expected in 1..=5usize {
        let t = detached(0).add_to_table(&mut table);
        assert_eq!(t.tid, expected);
    }
    let tids: Vec<usize> = table.entries.iter().map(|t| t.tid).collect();
    assert_eq!(tids, vec![1, 2, 3, 4, 5]);
}

#[test]
fn smallest_free_tid_fills_a_gap() {
    let mut table = ThreadTable::new();
    for _ in 0..5 {
        detached(0).add_to_table(&mut table);
    }
    table.entries.remove(1);
    table.entries.remove(2);
    let tids: Vec<usize> = table.entries.iter().map(|t| t.tid).collect();
    assert_eq!(tids, vec![1, 3, 5]);
    assert_eq!(detached(0).add_to_table(&mut table).tid, 2);
    assert_eq!(detached(0).add_to_table(&mut table).tid, 4);
    assert_eq!(detached(0).add_to_table(&mut table).tid, 6);
    let tids: Vec<usize> = table.entries.iter().map(|t| t.tid).collect();
    assert_eq!(tids, vec![1, 2, 3, 4, 5, 6]);
}

#[test]
fn table_keys_are_unique_and_equal_tids() {
    let mut table = ThreadTable::new();
    for _ in 0..20 {
        detached(0).add_to_table(&mut table);
    }
    table.entries.remove(7);
    detached(0).add_to_table(&mut table);
    for w in table.entries.windows(2) {
        assert!(w[0].tid < w[1].tid);
    }
    for t in table.entries.iter() {
        assert_eq!(table.get(t.tid).map(|x| x.tid), Some(t.tid));
    }
}

#[test]
fn add_to_table_keeps_the_rest_of_the_record() {
    let mut table = ThreadTable::new();
    let mut cx = UserContext::new();
    cx.set_ip(0x4000);
    let t = Thread {
        inner: ThreadInner { context: Some(cx), clear_child_tid: 0x99 },
        vm: 3,
        proc: 4,
        tid: 0,
        sig_mask: 0xf0,
    };
    let r = t.add_to_table(&mut table);
    assert_eq!(r, Thread { tid: 1, ..t });
}

#[test]
fn begin_and_end_running_move_the_context() {
    let mut t = detached(0);
    let mut cx = t.begin_running();
    assert_eq!(t.inner.context, None);
    assert_eq!(cx, UserContext::new());
    cx.trap_num = 0x20;
    t.end_running(cx);
    assert_eq!(t.inner.context, Some(cx));
}

#[test]
fn context_setters_touch_one_register() {
    let mut cx = UserContext::new();
    cx.set_ip(1);
    cx.set_sp(2);
    cx.set_tls(3);
    cx.set_syscall_ret(4);
    let mut expected = UserContext::new();
    expected.general.rip = 1;
    expected.general.rsp = 2;
    expected.general.fsbase = 3;
    expected.general.rax = 4;
    assert_eq!(cx, expected);
    assert_eq!(cx.get_syscall_ret(), 4);
    assert_eq!(cx.get_sp(), 2);
}

#[test]
fn new_user_builds_process_and_thread() {
    let mut threads = ThreadTable::new();
    let mut procs = ProcessTable::new();
    let t = Thread::new_user(&mut threads, &mut procs, 11, 0x40_1000, 0x7fff_0000, "/bin/hello");
    assert_eq!(t.tid, 1);
    assert_eq!(t.proc, 0);
    assert_eq!(t.vm, 11);
    assert_eq!(t.sig_mask, 0);
    assert_eq!(t.inner.clear_child_tid, 0);
    let cx = t.inner.context.unwrap();
    assert_eq!(cx.general.rip, 0x40_1000);
    assert_eq!(cx.general.rsp, 0x7fff_0000);
    assert_eq!(cx.general.rflags, 0x3202);
    assert_eq!(INITIAL_RFLAGS, 0x3202);
    assert_eq!(cx.general.rax, 0);
    assert_eq!(cx.trap_num, 0);
    assert_eq!(threads.get(1), Some(t));

    assert_eq!(procs.procs.len(), 1);
    let p = &procs.procs[0];
    assert_eq!(p.pid, 1);
    assert_eq!(p.vm, 11);
    assert_eq!(p.cwd, "/");
    assert_eq!(p.exec_path, "/bin/hello");
    assert_eq!(p.pgid, 0);
    assert_eq!(p.parent, (INIT, None));
    assert_eq!(p.parent, (1, None));
    assert!(p.children.is_empty());
    assert_eq!(p.threads, vec![1]);
    assert_eq!(threads.get(p.threads[0]).unwrap().proc, t.proc);
    assert!(p.futexes.is_empty());
    assert!(p.sig_queue.is_empty());
    assert_eq!(p.exit_code, 0);
    assert_eq!(p.dispositions.len(), RTMAX + 1);
    assert!(p
        .dispositions
        .iter()
        .all(|a| *a == SignalAction { handler: 0, flags: 0, restorer: 0, mask: 0 }));
    let tty = |fd: usize, read: bool, write: bool| FileEntry {
        fd,
        target: FileTarget::Tty,
        options: OpenOptions { read, write, append: false, nonblock: false },
    };
    assert_eq!(p.files, vec![tty(0, true, false), tty(1, false, true), tty(2, false, true)]);
    assert_eq!(procs.find(1), Some(0));
    assert_eq!(procs.find(2), None);
}

#[test]
fn fork_makes_a_child_process() {
    let mut threads = ThreadTable::new();
    let mut procs = ProcessTable::new();
    let parent = Thread::new_user(&mut threads, &mut procs, 11, 0x1000, 0x2000, "/bin/sh");
    procs.procs[0].pgid = 5;
    procs.procs[0].cwd = String::from("/home");
    procs.procs[0].futexes.push(0x8000);
    procs.procs[0].semaphores.push(3);
    procs.procs[0].pending_sigset = 0b100;
    procs.procs[0].sig_queue.push(Siginfo { signo: 2, code: 0, value: 0 });
    procs.procs[0].dispositions[2].handler = 0x5555;
    procs.procs[0].files.push(FileEntry {
        fd: 3,
        target: FileTarget::Description(40),
        options: OpenOptions { read: true, write: true, append: false, nonblock: false },
    });
    let mut parent = parent;
    parent.sig_mask = 0xabc;

    let mut tf = UserContext::new();
    tf.general.rax = 57;
    tf.general.rip = 0x1234;
    tf.general.rsp = 0x1ff0;
    tf.general.rbx = 77;
    let before = tf;
    let child = parent.fork(&tf, 12, &mut threads, &mut procs);
    assert_eq!(tf, before);

    assert_eq!(child.tid, 2);
    assert_eq!(child.proc, 1);
    assert_eq!(child.vm, 12);
    assert_eq!(child.sig_mask, 0xabc);
    assert_eq!(child.inner.clear_child_tid, 0);
    let cx = child.inner.context.unwrap();
    assert_eq!(cx.get_syscall_ret(), 0);
    assert_eq!(cx.general.rip, 0x1234);
    assert_eq!(cx.general.rsp, 0x1ff0);
    assert_eq!(cx.general.rbx, 77);

    let c = &procs.procs[1];
    assert_eq!(c.pid, 2);
    assert_eq!(c.vm, 12);
    assert_eq!(c.pgid, 5);
    assert_eq!(c.cwd, "/home");
    assert_eq!(c.exec_path, "/bin/sh");
    assert_eq!(c.parent, (1, Some(0)));
    assert_eq!(c.threads, vec![2]);
    assert!(c.children.is_empty());
    assert!(c.futexes.is_empty());
    assert_eq!(c.semaphores, vec![3]);
    assert_eq!(c.pending_sigset, 0);
    assert!(c.sig_queue.is_empty());
    assert_eq!(c.dispositions, procs.procs[0].dispositions);
    assert_eq!(c.dispositions[2].handler, 0x5555);
    assert_eq!(c.files, procs.procs[0].files);
    assert_eq!(c.files.len(), 4);
    assert_eq!(c.exit_code, 0);
    assert_eq!(c.eventbus, 0);

    let p = &procs.procs[0];
    assert_eq!(p.children, vec![(2, 1)]);
    assert_eq!(p.pid, 1);
    assert_eq!(p.futexes, vec![0x8000]);
    assert_eq!(threads.get(2), Some(child));
    assert_ne!(child.vm, parent.vm);
    assert_eq!(procs.procs[0].threads, vec![1]);
    assert_eq!(procs.procs[0].vm, parent.vm);
}

#[test]
fn new_clone_shares_process_and_space() {
    let mut threads = ThreadTable::new();
    let mut procs = ProcessTable::new();
    let forked = {
        let first = Thread::new_user(&mut threads, &mut procs, 11, 0x1000, 0x2000, "/bin/sh");
        first.fork(&UserContext::new(), 12, &mut threads, &mut procs)
    };
    let mut caller = forked;
    caller.sig_mask = 0x30;
    let mut cx = UserContext::new();
    cx.general.rax = 56;
    cx.general.rip = 0x7777;
    cx.general.rsp = 0x100;
    cx.general.fsbase = 0x200;
    cx.general.rdi = 9;
    let t = caller.new_clone(&cx, 0xdead_0000, 0xbeef_0000, 0x6000, &mut threads, &mut procs);
    assert_eq!(t.tid, 3);
    assert_eq!(t.vm, caller.vm);
    assert_eq!(t.proc, caller.proc);
    assert_eq!(t.sig_mask, 0x30);
    assert_eq!(t.inner.clear_child_tid, 0x6000);
    let new_cx = t.inner.context.unwrap();
    assert_eq!(new_cx.general.rsp, 0xdead_0000);
    assert_eq!(new_cx.general.fsbase, 0xbeef_0000);
    assert_eq!(new_cx.general.rax, 0);
    assert_eq!(new_cx.general.rip, 0x7777);
    assert_eq!(new_cx.general.rdi, 9);
    assert_eq!(procs.procs[caller.proc].threads, vec![2, 3]);
    assert_eq!(procs.procs.len(), 2);
    assert_eq!(procs.procs[0].threads, vec![1]);
    assert_eq!(threads.get(3), Some(t));
    assert_eq!(threads.get(3).unwrap().proc, caller.proc);
}

#[test]
fn every_listed_thread_belongs_to_its_process() {
    let mut threads = ThreadTable::new();
    let mut procs = ProcessTable::new();
    let a = Thread::new_user(&mut threads, &mut procs, 1, 0x1000, 0x2000, "/a");
    let b = a.fork(&UserContext::new(), 2, &mut threads, &mut procs);
    let c = b.fork(&UserContext::new(), 3, &mut threads, &mut procs);
    b.new_clone(&UserContext::new(), 0x10, 0x20, 0, &mut threads, &mut procs);
    c.new_clone(&UserContext::new(), 0x10, 0x20, 0, &mut threads, &mut procs);
    a.new_clone(&UserContext::new(), 0x10, 0x20, 0, &mut threads, &mut procs);
    for (h, p) in procs.procs.iter().enumerate() {
        for tid in p.threads.iter() {
            assert_eq!(threads.get(*tid).unwrap().proc, h);
        }
        if let (pid, Some(parent)) = p.parent {
            assert_eq!(procs.procs[parent].pid, pid);
            assert!(procs.procs[parent].children.contains(&(p.pid, h)));
        }
    }
    for t in threads.entries.iter() {
        assert!(procs.procs[t.proc].threads.contains(&t.tid));
    }
    for p in procs.procs.iter() {
        for (i, a) in p.files.iter().enumerate() {
            assert!(p.files[..i].iter().all(|b| b.fd != a.fd));
        }
    }
    assert_eq!(procs.procs[0].threads, vec![1, 6]);
    assert_eq!(procs.procs[1].threads, vec![2, 4]);
    assert_eq!(procs.procs[2].threads, vec![3, 5]);
    assert_eq!(procs.procs[0].children, vec![(2, 1)]);
    assert_eq!(procs.procs[1].children, vec![(3, 2)]);
}

#[test]
fn process_table_links() {
    let mut threads = ThreadTable::new();
    let mut procs = ProcessTable::new();
    Thread::new_user(&mut threads, &mut procs, 1, 0x1000, 0x2000, "/a");
    Thread::new_user(&mut threads, &mut procs, 2, 0x1000, 0x2000, "/b");
    procs.add_thread(1, 9);
    procs.add_child(0, 2, 1);
    procs.add_to_process_table(1, 40);
    assert_eq!(procs.procs[1].threads, vec![2, 9]);
    assert_eq!(procs.procs[0].children, vec![(2, 1)]);
    assert_eq!(procs.procs[1].pid, 40);
    assert_eq!(procs.procs[0].pid, 1);
    assert_eq!(procs.find(40), Some(1));
    assert_eq!(procs.find(2), None);
}

#[test]
fn position_finds_a_thread_by_its_identifier() {
    let mut table = ThreadTable::new();
    for _ in 0..4 {
        detached(0).add_to_table(&mut table);
    }
    table.entries.remove(1);
    assert_eq!(table.position(1), Some(0));
    assert_eq!(table.position(2), None);
    assert_eq!(table.position(3), Some(1));
    assert_eq!(table.position(4), Some(2));
    assert_eq!(table.position(0), None);
}

#[test]
fn the_default_context_is_zero() {
    assert_eq!(UserContext::default(), UserContext::new());
    assert_eq!(UserContext::default().general.rflags, 0);
}

#[test]
fn a_thread_starts_without_context() {
    assert_eq!(ThreadInner::default(), ThreadInner { context: None, clear_child_tid: 0 });
}
