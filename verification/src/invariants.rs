//! What holds of the thread table and the process table together, and is kept
//! by every way a thread comes into being.

use crate::process::{ProcHandle, ProcessTable};
use crate::thread::{Thread, ThreadTable, Tid};
use vstd::prelude::*;

verus! {

/// Whether the table holds a thread `tid` that belongs to the process at
/// `proc`.
pub open spec fn has_thread_of(threads: ThreadTable, tid: Tid, proc: ProcHandle) -> bool {
    exists|t: Thread| #[trigger] threads.holds(t) && t.tid == tid && t.proc == proc
}

/// The process of every thread is in the process table.
pub open spec fn threads_have_processes(threads: ThreadTable, procs: ProcessTable) -> bool {
    forall|t: Thread| #[trigger] threads.holds(t) ==> procs.holds(t.proc)
}

/// Every identifier in a process's list of threads is that of a thread in
/// the table, and that thread's process is this one.
pub open spec fn listed_threads_belong(threads: ThreadTable, procs: ProcessTable) -> bool {
    forall|h: ProcHandle, k: int|
        procs.holds(h) && 0 <= k < procs.procs@[h as int].threads@.len() ==> has_thread_of(
            threads,
            #[trigger] procs.procs@[h as int].threads@[k],
            h,
        )
}

/// The identifier of every thread is in the list of threads of its process.
pub open spec fn threads_are_listed(threads: ThreadTable, procs: ProcessTable) -> bool {
    forall|t: Thread| #[trigger]
        threads.holds(t) ==> procs.holds(t.proc) && procs.procs@[t.proc as int].threads@.contains(
            t.tid,
        )
}

/// Every process is well formed.
pub open spec fn processes_are_wf(procs: ProcessTable) -> bool {
    forall|h: ProcHandle| #[trigger] procs.holds(h) ==> procs.procs@[h as int]@.wf()
}

/// Every process with a live parent is among that parent's children.
pub open spec fn children_know_parents(procs: ProcessTable) -> bool {
    forall|h: ProcHandle| procs.holds(h) ==> #[trigger] procs.linked_to_parent(h)
}

/// The two tables fit together.
pub open spec fn consistent(threads: ThreadTable, procs: ProcessTable) -> bool {
    &&& threads.wf()
    &&& threads_have_processes(threads, procs)
    &&& threads_are_listed(threads, procs)
    &&& listed_threads_belong(threads, procs)
    &&& children_know_parents(procs)
    &&& processes_are_wf(procs)
}

/// How the thread table changes when `added` comes into it.
pub open spec fn thread_added(before: ThreadTable, after: ThreadTable, added: Thread) -> bool {
    &&& after.wf()
    &&& forall|t: Thread| #[trigger] after.holds(t) <==> (before.holds(t) || t == added)
}

/// Empty tables fit together.
pub proof fn lemma_empty_is_consistent(threads: ThreadTable, procs: ProcessTable)
    requires
        threads.entries@.len() == 0,
        procs.procs@.len() == 0,
    ensures
        consistent(threads, procs),
{
    assert forall|t: Thread| #[trigger] threads.holds(t) implies false by {
        let i = choose|i: int| 0 <= i < threads.entries@.len() && threads.entries@[i] == t;
    }
}

/// In tables that fit together, the thread found under an identifier that a
/// process lists belongs to that process, and no other thread has that
/// identifier.
pub proof fn lemma_listed_thread_is_unique(
    threads: ThreadTable,
    procs: ProcessTable,
    h: ProcHandle,
    k: int,
    t: Thread,
)
    requires
        consistent(threads, procs),
        procs.holds(h),
        0 <= k < procs.procs@[h as int].threads@.len(),
        threads.holds(t),
        t.tid == procs.procs@[h as int].threads@[k],
    ensures
        t.proc == h,
{
    let tid = procs.procs@[h as int].threads@[k];
    assert(has_thread_of(threads, tid, h));
    let u = choose|u: Thread| #[trigger] threads.holds(u) && u.tid == tid && u.proc == h;
    let i = choose|i: int| 0 <= i < threads.entries@.len() && threads.entries@[i] == t;
    let j = choose|j: int| 0 <= j < threads.entries@.len() && threads.entries@[j] == u;
    crate::thread::lemma_tids_are_unique(threads, i, j);
}

/// A change to a thread's saved context, which leaves its identifier and
/// its process as they were, keeps the tables fitting together.
pub proof fn lemma_context_change_keeps_consistent(
    threads0: ThreadTable,
    threads1: ThreadTable,
    procs: ProcessTable,
    i: int,
)
    requires
        consistent(threads0, procs),
        0 <= i < threads0.entries@.len(),
        threads1.entries@ == threads0.entries@.update(i, threads1.entries@[i]),
        threads1.entries@[i].tid == threads0.entries@[i].tid,
        threads1.entries@[i].proc == threads0.entries@[i].proc,
    ensures
        consistent(threads1, procs),
{
    let before = threads0.entries@;
    let after = threads1.entries@;
    crate::thread::lemma_same_tids_keep_wf(threads0, threads1);
    assert forall|t: Thread| #[trigger] threads1.holds(t) implies procs.holds(t.proc)
        && procs.procs@[t.proc as int].threads@.contains(t.tid) by {
        let a = choose|a: int| 0 <= a < after.len() && after[a] == t;
        assert(threads0.holds(before[a]));
    }
    assert forall|h: ProcHandle, k: int|
        procs.holds(h) && 0 <= k < procs.procs@[h as int].threads@.len() implies has_thread_of(
        threads1,
        #[trigger] procs.procs@[h as int].threads@[k],
        h,
    ) by {
        let tid = procs.procs@[h as int].threads@[k];
        assert(has_thread_of(threads0, tid, h));
        let t = choose|t: Thread| #[trigger] threads0.holds(t) && t.tid == tid && t.proc == h;
        let a = choose|a: int| 0 <= a < before.len() && before[a] == t;
        assert(after[a].tid == tid && after[a].proc == h);
        assert(threads1.holds(after[a]));
    }
}

/// A new well-formed process with no parent record that lists its first
/// thread, and that thread alone, keeps the tables fitting together.
pub proof fn lemma_new_user_keeps_consistent(
    threads0: ThreadTable,
    procs0: ProcessTable,
    threads1: ThreadTable,
    procs1: ProcessTable,
    thread: Thread,
)
    requires
        consistent(threads0, procs0),
        thread_added(threads0, threads1, thread),
        thread.proc == procs0.procs@.len(),
        procs1.procs@.len() == procs0.procs@.len() + 1,
        procs1.procs@[thread.proc as int].parent.1 is None,
        procs1.procs@[thread.proc as int].threads@ == seq![thread.tid],
        procs1.procs@[thread.proc as int]@.wf(),
        forall|h: int| 0 <= h < procs0.procs@.len() ==> procs1.procs@[h] == procs0.procs@[h],
    ensures
        consistent(threads1, procs1),
{
    let new = thread.proc as int;
    assert(threads1.holds(thread));
    assert(procs1.procs@[new].threads@[0] == thread.tid);
    assert forall|t: Thread| #[trigger] threads1.holds(t) implies procs1.holds(t.proc)
        && procs1.procs@[t.proc as int].threads@.contains(t.tid) by {
        if t != thread {
            assert(threads0.holds(t));
        }
    }
    assert forall|h: ProcHandle, k: int|
        procs1.holds(h) && 0 <= k < procs1.procs@[h as int].threads@.len() implies has_thread_of(
        threads1,
        #[trigger] procs1.procs@[h as int].threads@[k],
        h,
    ) by {
        if h != new {
            let tid = procs0.procs@[h as int].threads@[k];
            assert(has_thread_of(threads0, tid, h));
            let t = choose|t: Thread| #[trigger] threads0.holds(t) && t.tid == tid && t.proc == h;
            assert(threads1.holds(t));
        }
    }
    assert forall|h: ProcHandle| #[trigger] procs1.holds(h) implies procs1.procs@[h as int]@.wf() by {
        if h != new {
            assert(procs0.holds(h));
        }
    }
    assert forall|h: ProcHandle| procs1.holds(h) implies #[trigger] procs1.linked_to_parent(
        h,
    ) by {
        if h < procs0.procs@.len() {
            assert(procs0.linked_to_parent(h));
        }
    }
}

/// A new thread that its process lists keeps the tables fitting together.
pub proof fn lemma_new_clone_keeps_consistent(
    threads0: ThreadTable,
    procs0: ProcessTable,
    threads1: ThreadTable,
    procs1: ProcessTable,
    thread: Thread,
)
    requires
        consistent(threads0, procs0),
        thread_added(threads0, threads1, thread),
        procs0.holds(thread.proc),
        procs1.procs@.len() == procs0.procs@.len(),
        procs1.procs@[thread.proc as int]@ == (crate::process::ProcessView {
            threads: procs0.procs@[thread.proc as int].threads@.push(thread.tid),
            ..procs0.procs@[thread.proc as int]@
        }),
        forall|h: int|
            0 <= h < procs0.procs@.len() && h != thread.proc ==> procs1.procs@[h]
                == procs0.procs@[h],
    ensures
        consistent(threads1, procs1),
{
    let own = thread.proc as int;
    assert(threads1.holds(thread));
    assert(procs1.procs@[own].threads@ == procs1.procs@[own]@.threads);
    assert(procs0.procs@[own].threads@ == procs0.procs@[own]@.threads);
    assert(procs1.procs@[own]@.files == procs0.procs@[own]@.files);
    assert(procs1.procs@[own]@.futexes == procs0.procs@[own]@.futexes);
    assert forall|t: Thread| #[trigger] threads1.holds(t) implies procs1.holds(t.proc)
        && procs1.procs@[t.proc as int].threads@.contains(t.tid) by {
        let grown = procs1.procs@[own].threads@;
        if t == thread {
            assert(grown[grown.len() - 1] == t.tid);
        } else {
            assert(threads0.holds(t));
            if t.proc == thread.proc {
                let listed = procs0.procs@[own].threads@;
                let i = choose|i: int| 0 <= i < listed.len() && listed[i] == t.tid;
                assert(grown[i] == t.tid);
            }
        }
    }
    assert forall|h: ProcHandle| #[trigger] procs1.holds(h) implies procs1.procs@[h as int]@.wf() by {
        assert(procs0.holds(h));
    }
    assert forall|h: ProcHandle, k: int|
        procs1.holds(h) && 0 <= k < procs1.procs@[h as int].threads@.len() implies has_thread_of(
        threads1,
        #[trigger] procs1.procs@[h as int].threads@[k],
        h,
    ) by {
        assert(procs1.procs@[own].threads@ == procs1.procs@[own]@.threads);
        assert(procs0.procs@[own].threads@ == procs0.procs@[own]@.threads);
        if h == own && k == procs0.procs@[own].threads@.len() {
            assert(procs1.procs@[h as int].threads@[k] == thread.tid);
        } else {
            assert(0 <= k < procs0.procs@[h as int].threads@.len());
            let tid = procs0.procs@[h as int].threads@[k];
            assert(tid == procs1.procs@[h as int].threads@[k]);
            assert(has_thread_of(threads0, tid, h));
            let t = choose|t: Thread| #[trigger] threads0.holds(t) && t.tid == tid && t.proc == h;
            assert(threads1.holds(t));
        }
    }
    assert forall|h: ProcHandle| procs1.holds(h) implies #[trigger] procs1.linked_to_parent(
        h,
    ) by {
        assert(procs0.linked_to_parent(h));
        assert(procs1.procs@[own]@.children == procs0.procs@[own]@.children);
        assert(procs1.procs@[own]@.parent == procs0.procs@[own]@.parent);
        assert(procs1.procs@[own]@.pid == procs0.procs@[own]@.pid);
    }
}

/// A forked process, listed by its parent and listing its one thread, keeps
/// the tables fitting together.
pub proof fn lemma_fork_keeps_consistent(
    threads0: ThreadTable,
    procs0: ProcessTable,
    threads1: ThreadTable,
    procs1: ProcessTable,
    parent: ProcHandle,
    child: Thread,
)
    requires
        consistent(threads0, procs0),
        thread_added(threads0, threads1, child),
        procs0.holds(parent),
        child.proc == procs0.procs@.len(),
        procs1.procs@.len() == procs0.procs@.len() + 1,
        procs1.procs@[child.proc as int].threads@ == seq![child.tid],
        procs1.procs@[child.proc as int].pid == child.tid,
        procs1.procs@[child.proc as int].parent.1 == Some(parent),
        procs1.procs@[child.proc as int]@.wf(),
        procs1.procs@[parent as int]@ == (crate::process::ProcessView {
            children: procs0.procs@[parent as int].children@.push((child.tid, child.proc)),
            ..procs0.procs@[parent as int]@
        }),
        forall|h: int|
            0 <= h < procs0.procs@.len() && h != parent ==> procs1.procs@[h] == procs0.procs@[h],
    ensures
        consistent(threads1, procs1),
{
    let own = parent as int;
    let new = child.proc as int;
    assert(threads1.holds(child));
    assert(procs1.procs@[new].threads@[0] == child.tid);
    assert(procs0.procs@[own].threads@ == procs0.procs@[own]@.threads);
    assert(procs1.procs@[own]@.files == procs0.procs@[own]@.files);
    assert(procs1.procs@[own]@.futexes == procs0.procs@[own]@.futexes);
    assert forall|t: Thread| #[trigger] threads1.holds(t) implies procs1.holds(t.proc)
        && procs1.procs@[t.proc as int].threads@.contains(t.tid) by {
        if t != child {
            assert(threads0.holds(t));
            assert(procs1.procs@[t.proc as int].threads@ == procs0.procs@[t.proc as int].threads@);
        }
    }
    assert forall|h: ProcHandle| #[trigger] procs1.holds(h) implies procs1.procs@[h as int]@.wf() by {
        if h != new {
            assert(procs0.holds(h));
        }
    }
    assert(procs1.procs@[own].threads@ == procs1.procs@[own]@.threads);
    assert(procs1.procs@[own].children@ == procs1.procs@[own]@.children);
    assert(procs1.procs@[own]@.parent == procs0.procs@[own]@.parent);
    assert(procs1.procs@[own]@.pid == procs0.procs@[own]@.pid);
    assert forall|h: ProcHandle, k: int|
        procs1.holds(h) && 0 <= k < procs1.procs@[h as int].threads@.len() implies has_thread_of(
        threads1,
        #[trigger] procs1.procs@[h as int].threads@[k],
        h,
    ) by {
        if h == new {
        } else {
            let tid = procs0.procs@[h as int].threads@[k];
            assert(has_thread_of(threads0, tid, h));
            let t = choose|t: Thread| #[trigger] threads0.holds(t) && t.tid == tid && t.proc == h;
            assert(threads1.holds(t));
        }
    }
    let grown = procs1.procs@[own].children@;
    assert(grown[grown.len() - 1] == (child.tid, child.proc));
    assert forall|h: ProcHandle| procs1.holds(h) implies #[trigger] procs1.linked_to_parent(
        h,
    ) by {
        if h == new {
        } else {
            assert(procs0.linked_to_parent(h));
            match procs0.procs@[h as int].parent.1 {
                Some(p) => {
                    if p == parent {
                        let listed = procs0.procs@[own].children@;
                        let i = choose|i: int|
                            0 <= i < listed.len() && listed[i] == (procs0.procs@[h as int].pid, h);
                        assert(grown[i] == listed[i]);
                    }
                },
                None => {},
            }
        }
    }
}

} // verus!
