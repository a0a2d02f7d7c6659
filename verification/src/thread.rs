//! Thread records, the thread table, and how threads come into being.

use crate::context::UserContext;
use crate::invariants::{
    consistent, lemma_fork_keeps_consistent, lemma_new_clone_keeps_consistent,
    lemma_new_user_keeps_consistent, thread_added,
};
use crate::loader::{
    check_image, elf_header_of, has_elf_ident, interp_fault_of, interp_header_of, load_outcome, plan_image,
    read_elf_header, InterpRead, LoadError, LoadPlan, ProcInitInfo, Target, ELF_HEADER_LEN,
};
use crate::process::{
    default_dispositions, duplicate, forked_process, fresh_process, tty_file, ProcHandle, Process,
    ProcessTable, ProcessView, SignalStack, Sigset, VmHandle, INIT,
};
use vstd::prelude::*;

verus! {

/// A thread identifier.
pub type Tid = usize;

/// The part of a thread that changes while it lives.
#[derive(Clone, Copy, Debug, PartialEq, Eq, Structural)]
pub struct ThreadInner {
    /// The saved user context. `None` while the thread runs in user mode or
    /// its trap is being handled: the loop that runs it then holds the context.
    pub context: Option<UserContext>,
    /// The user address that is zeroed and woken on when the thread exits.
    pub clear_child_tid: usize,
}

/// One user thread.
#[derive(Clone, Copy, Debug, PartialEq, Eq, Structural)]
pub struct Thread {
    pub inner: ThreadInner,
    /// The address space of the thread's process.
    pub vm: VmHandle,
    /// The process the thread belongs to.
    pub proc: ProcHandle,
    /// The identifier, 0 until the thread is in the table.
    pub tid: Tid,
    pub sig_mask: Sigset,
}

/// The threads by identifier, in rising order.
pub struct ThreadTable {
    pub entries: Vec<Thread>,
}

impl ThreadTable {
    /// The identifiers rise strictly and none is below `INIT`: no identifier
    /// occurs twice, and each thread is found under its own.
    pub open spec fn wf(self) -> bool {
        &&& forall|i: int| 0 <= i < self.entries@.len() ==> (#[trigger] self.entries@[i]).tid >= INIT
        &&& forall|i: int, j: int|
            0 <= i < j < self.entries@.len() ==> (#[trigger] self.entries@[i]).tid < (
            #[trigger] self.entries@[j]).tid
    }

    /// Whether a thread of the table has the identifier `tid`.
    pub open spec fn contains(self, tid: Tid) -> bool {
        exists|i: int| 0 <= i < self.entries@.len() && (#[trigger] self.entries@[i]).tid == tid
    }

    /// Whether the table holds exactly this record.
    pub open spec fn holds(self, thread: Thread) -> bool {
        self.entries@.contains(thread)
    }

    /// Whether `tid` is the smallest identifier from `INIT` on that no thread
    /// of the table has.
    pub open spec fn is_first_free(self, tid: Tid) -> bool {
        &&& tid >= INIT
        &&& !self.contains(tid)
        &&& forall|t: Tid| INIT <= t < tid ==> self.contains(t)
    }

    pub fn new() -> (table: ThreadTable)
        ensures
            table.wf(),
            table.entries@.len() == 0,
    {
        ThreadTable { entries: Vec::new() }
    }

    /// The number of threads.
    pub fn len(&self) -> (n: usize)
        ensures
            n == self.entries@.len(),
    {
        self.entries.len()
    }

    /// The thread with the identifier `tid`, if the table holds one.
    pub fn get(&self, tid: Tid) -> (found: Option<Thread>)
        ensures
            match found {
                Some(thread) => thread.tid == tid && self.holds(thread),
                None => !self.contains(tid),
            },
    {
        let mut i: usize = 0;
        while i < self.entries.len()
            invariant
                i <= self.entries@.len(),
                forall|k: int| 0 <= k < i ==> (#[trigger] self.entries@[k]).tid != tid,
            decreases self.entries@.len() - i,
        {
            if self.entries[i].tid == tid {
                return Some(self.entries[i]);
            }
            i += 1;
        }
        None
    }

    /// Where in the table the thread with the identifier `tid` stands, if the
    /// table holds one.
    pub fn position(&self, tid: Tid) -> (found: Option<usize>)
        ensures
            match found {
                Some(i) => i < self.entries@.len() && self.entries@[i as int].tid == tid,
                None => !self.contains(tid),
            },
    {
        let mut i: usize = 0;
        while i < self.entries.len()
            invariant
                i <= self.entries@.len(),
                forall|k: int| 0 <= k < i ==> (#[trigger] self.entries@[k]).tid != tid,
            decreases self.entries@.len() - i,
        {
            if self.entries[i].tid == tid {
                return Some(i);
            }
            i += 1;
        }
        None
    }

    /// The length of the run of identifiers `INIT`, `INIT + 1`, ... that the
    /// table starts with. The identifier after the run is the first free one.
    fn first_gap(&self) -> (k: usize)
        requires
            self.wf(),
        ensures
            k <= self.entries@.len(),
            forall|i: int| 0 <= i < k ==> (#[trigger] self.entries@[i]).tid == INIT + i,
            k < self.entries@.len() ==> self.entries@[k as int].tid > INIT + k,
    {
        let mut k: usize = 0;
        while k < self.entries.len()
            invariant
                self.wf(),
                k <= self.entries@.len(),
                forall|i: int| 0 <= i < k ==> (#[trigger] self.entries@[i]).tid == INIT + i,
            decreases self.entries@.len() - k,
        {
            let tid: usize = self.entries[k].tid;
            proof {
                if k > 0 {
                    assert(self.entries@[k - 1].tid < self.entries@[k as int].tid);
                }
            }
            if tid - INIT != k {
                return k;
            }
            k += 1;
        }
        k
    }

    /// After a run `INIT`, `INIT + 1`, ... of length `k` that the next
    /// identifier does not continue, `INIT + k` is the first free identifier.
    proof fn lemma_gap_is_first_free(self, k: int)
        requires
            self.wf(),
            0 <= k <= self.entries@.len(),
            INIT + k <= usize::MAX,
            forall|i: int| 0 <= i < k ==> (#[trigger] self.entries@[i]).tid == INIT + i,
            k < self.entries@.len() ==> self.entries@[k].tid > INIT + k,
        ensures
            self.is_first_free((INIT + k) as usize),
    {
        let tid = (INIT + k) as usize;
        assert forall|i: int| 0 <= i < self.entries@.len() implies (
        #[trigger] self.entries@[i]).tid != tid by {
            if i > k {
                assert(self.entries@[k].tid < self.entries@[i].tid);
            }
        }
        assert forall|t: Tid| INIT <= t < tid implies self.contains(t) by {
            assert(self.entries@[t - INIT].tid == t);
        }
    }
}

/// A thread that is put in after a run `INIT`, `INIT + 1`, ... of length `k`
/// with the identifier `INIT + k`, which the table lacks, keeps the
/// identifiers rising.
proof fn lemma_insert_keeps_order(
    before: ThreadTable,
    after: ThreadTable,
    k: int,
    registered: Thread,
)
    requires
        before.wf(),
        0 <= k <= before.entries@.len(),
        forall|i: int| 0 <= i < k ==> (#[trigger] before.entries@[i]).tid == INIT + i,
        k < before.entries@.len() ==> before.entries@[k].tid > INIT + k,
        registered.tid == INIT + k,
        after.entries@ == before.entries@.insert(k, registered),
    ensures
        after.wf(),
{
    let old_entries = before.entries@;
    let new_entries = after.entries@;
    assert forall|i: int| 0 <= i < new_entries.len() implies (#[trigger] new_entries[i]).tid
        >= INIT by {
        if i < k {
            assert(old_entries[i].tid >= INIT);
        } else if i > k {
            assert(old_entries[i - 1].tid >= INIT);
        }
    }
    assert forall|i: int, j: int| 0 <= i < j < new_entries.len() implies (
    #[trigger] new_entries[i]).tid < (#[trigger] new_entries[j]).tid by {
        if j < k {
            assert(old_entries[i].tid < old_entries[j].tid);
        } else if j == k {
            assert(old_entries[i].tid == INIT + i);
        } else {
            if j - 1 > k {
                assert(old_entries[k].tid < old_entries[j - 1].tid);
            }
            if i < k {
                assert(old_entries[i].tid == INIT + i);
            } else if i > k {
                assert(old_entries[i - 1].tid < old_entries[j - 1].tid);
            }
        }
    }
}

/// Putting a thread in adds its identifier to those of the table, and
/// nothing else.
proof fn lemma_insert_keeps_tids(
    before: ThreadTable,
    after: ThreadTable,
    k: int,
    registered: Thread,
)
    requires
        0 <= k <= before.entries@.len(),
        after.entries@ == before.entries@.insert(k, registered),
    ensures
        forall|t: Tid| after.contains(t) <==> (before.contains(t) || t == registered.tid),
{
    let old_entries = before.entries@;
    let new_entries = after.entries@;
    assert forall|t: Tid| after.contains(t) <==> (before.contains(t) || t == registered.tid) by {
        if after.contains(t) {
            let i = choose|i: int|
                0 <= i < new_entries.len() && (#[trigger] new_entries[i]).tid == t;
            if i < k {
                assert(old_entries[i].tid == t);
            } else if i > k {
                assert(old_entries[i - 1].tid == t);
            }
        }
        if before.contains(t) {
            let i = choose|i: int|
                0 <= i < old_entries.len() && (#[trigger] old_entries[i]).tid == t;
            if i < k {
                assert(new_entries[i].tid == t);
            } else {
                assert(new_entries[i + 1].tid == t);
            }
        }
        if t == registered.tid {
            assert(new_entries[k].tid == t);
        }
    }
}

/// Putting a thread in adds its record to those of the table, and nothing
/// else.
proof fn lemma_insert_keeps_records(
    before: ThreadTable,
    after: ThreadTable,
    k: int,
    registered: Thread,
)
    requires
        0 <= k <= before.entries@.len(),
        after.entries@ == before.entries@.insert(k, registered),
    ensures
        after.holds(registered),
        forall|t: Thread| #[trigger] after.holds(t) <==> (before.holds(t) || t == registered),
{
    let old_entries = before.entries@;
    let new_entries = after.entries@;
    assert(new_entries[k] == registered);
    assert forall|t: Thread| #[trigger] after.holds(t) <==> (before.holds(t) || t
        == registered) by {
        if before.holds(t) {
            let i = choose|i: int| 0 <= i < old_entries.len() && old_entries[i] == t;
            if i < k {
                assert(new_entries[i] == t);
            } else {
                assert(new_entries[i + 1] == t);
            }
        }
        if after.holds(t) {
            let i = choose|i: int| 0 <= i < new_entries.len() && new_entries[i] == t;
            if i < k {
                assert(old_entries[i] == t);
            } else if i > k {
                assert(old_entries[i - 1] == t);
            }
        }
    }
}

/// A table whose threads keep their identifiers stays well formed.
pub proof fn lemma_same_tids_keep_wf(before: ThreadTable, after: ThreadTable)
    requires
        before.wf(),
        after.entries@.len() == before.entries@.len(),
        forall|i: int|
            0 <= i < before.entries@.len() ==> (#[trigger] after.entries@[i]).tid
                == before.entries@[i].tid,
    ensures
        after.wf(),
{
    assert forall|a: int, b: int| 0 <= a < b < after.entries@.len() implies (
    #[trigger] after.entries@[a]).tid < (#[trigger] after.entries@[b]).tid by {
        assert(before.entries@[a].tid < before.entries@[b].tid);
    }
    assert forall|a: int| 0 <= a < after.entries@.len() implies (#[trigger] after.entries@[a]).tid
        >= INIT by {
        assert(before.entries@[a].tid >= INIT);
    }
}

/// No two entries of a well-formed table have the same identifier.
pub proof fn lemma_tids_are_unique(table: ThreadTable, i: int, j: int)
    requires
        table.wf(),
        0 <= i < table.entries@.len(),
        0 <= j < table.entries@.len(),
        table.entries@[i].tid == table.entries@[j].tid,
    ensures
        i == j,
{
    if i < j {
        assert(table.entries@[i].tid < table.entries@[j].tid);
    }
    if j < i {
        assert(table.entries@[j].tid < table.entries@[i].tid);
    }
}

/// A table has at most one first free identifier.
pub proof fn lemma_first_free_is_unique(table: ThreadTable, a: Tid, b: Tid)
    requires
        table.is_first_free(a),
        table.is_first_free(b),
    ensures
        a == b,
{
}

impl Default for ThreadInner {
    /// No context and no address to clear.
    fn default() -> (inner: ThreadInner)
        ensures
            inner == (ThreadInner { context: None, clear_child_tid: 0 }),
    {
        ThreadInner { context: None, clear_child_tid: 0 }
    }
}

impl Thread {
    /// Gives the thread the first free identifier and puts it into the table.
    /// Returns the record as the table now holds it.
    pub fn add_to_table(self, table: &mut ThreadTable) -> (registered: Thread)
        requires
            old(table).wf(),
            old(table).entries@.len() < usize::MAX - INIT,
        ensures
            final(table).wf(),
            old(table).is_first_free(registered.tid),
            registered.tid - INIT <= old(table).entries@.len(),
            registered == (Thread { tid: registered.tid, ..self }),
            final(table).entries@ == old(table).entries@.insert(
                registered.tid - INIT,
                registered,
            ),
            final(table).holds(registered),
            forall|t: Tid|
                final(table).contains(t) <==> (old(table).contains(t) || t == registered.tid),
            thread_added(*old(table), *final(table), registered),
    {
        let k: usize = table.first_gap();
        let tid: usize = INIT + k;
        let registered = Thread { tid, ..self };
        proof {
            table.lemma_gap_is_first_free(k as int);
        }
        table.entries.insert(k, registered);
        proof {
            lemma_insert_keeps_order(*old(table), *table, k as int, registered);
            lemma_insert_keeps_tids(*old(table), *table, k as int, registered);
            lemma_insert_keeps_records(*old(table), *table, k as int, registered);
        }
        registered
    }

    /// Plans the image of a new program for the machine `host`, and makes up
    /// what is to be written onto its stack. `exec` is the start of the
    /// executable, or `None` where it could not be read; `phdr_vaddr` and
    /// `bias` are where its program headers and its segments were mapped;
    /// `interp` is what came of reading its interpreter. An error comes
    /// alone: nothing of a plan comes with it.
    pub fn new_user_vm(
        exec: Option<&[u8]>,
        host: Target,
        phdr_vaddr: Option<u64>,
        bias: u64,
        interp: &InterpRead,
        args: Vec<String>,
        envs: Vec<String>,
    ) -> (loaded: Result<(LoadPlan, ProcInitInfo), LoadError>)
        requires
            exec matches Some(data) ==> data@.len() >= ELF_HEADER_LEN,
            interp matches InterpRead::Data(data) ==> data@.len() >= ELF_HEADER_LEN,
        ensures
            match loaded {
                Ok((plan, info)) => {
                    &&& info.args == args
                    &&& info.envs == envs
                    &&& info.auxv@ == plan.auxv.entries()
                    &&& Ok::<LoadPlan, LoadError>(plan) == Self::load_outcome_of(
                        exec,
                        host,
                        phdr_vaddr,
                        bias,
                        *interp,
                    )
                },
                Err(e) => Err::<LoadPlan, LoadError>(e) == Self::load_outcome_of(
                    exec,
                    host,
                    phdr_vaddr,
                    bias,
                    *interp,
                ),
            },
            exec is None ==> loaded == Err::<(LoadPlan, ProcInitInfo), LoadError>(
                LoadError::ReadFailed,
            ),
            exec matches Some(data) && !has_elf_ident(data@) ==> loaded == Err::<
                (LoadPlan, ProcInitInfo),
                LoadError,
            >(LoadError::InvalidElf),
    {
        let data = match exec {
            Some(data) => data,
            None => { return Err(LoadError::ReadFailed); },
        };
        let header = match read_elf_header(data) {
            Ok(header) => header,
            Err(e) => { return Err(e); },
        };
        match check_image(&header, host) {
            Ok(()) => {},
            Err(e) => { return Err(e); },
        }
        let plan = match interp {
            InterpRead::Absent => plan_image(&header, phdr_vaddr, bias, None),
            InterpRead::NotFound => { return Err(LoadError::InterpreterNotFound); },
            InterpRead::ReadFailed => { return Err(LoadError::ReadFailed); },
            InterpRead::Data(bytes) => {
                let interp_header = match read_elf_header(bytes.as_slice()) {
                    Ok(h) => h,
                    Err(e) => { return Err(e); },
                };
                if interp_header.entry_point > u64::MAX - bias {
                    return Err(LoadError::EntryOutOfRange);
                }
                plan_image(&header, phdr_vaddr, bias, Some(interp_header))
            },
        };
        let info = ProcInitInfo { args, envs, auxv: plan.auxv.to_entries() };
        Ok((plan, info))
    }

    /// What loading comes to for the bytes that were read.
    pub open spec fn load_outcome_of(
        exec: Option<&[u8]>,
        host: Target,
        phdr_vaddr: Option<u64>,
        bias: u64,
        interp: InterpRead,
    ) -> Result<LoadPlan, LoadError> {
        load_outcome(
            match exec {
                Some(data) => Some(elf_header_of(data@)),
                None => None,
            },
            host,
            phdr_vaddr,
            bias,
            interp_fault_of(interp),
            interp_header_of(interp),
        )
    }

    /// Makes a new process for a program that has been loaded into the address
    /// space `vm`, with its first thread. The thread starts at `entry_addr` on
    /// the stack at `ustack_top`; its identifier identifies the process too,
    /// and is the one entry of the process's list of threads.
    pub fn new_user(
        threads: &mut ThreadTable,
        procs: &mut ProcessTable,
        vm: VmHandle,
        entry_addr: usize,
        ustack_top: usize,
        exec_path: &str,
    ) -> (thread: Thread)
        requires
            old(threads).wf(),
            old(threads).entries@.len() < usize::MAX - INIT,
        ensures
            final(threads).wf(),
            old(threads).is_first_free(thread.tid),
            thread.tid - INIT <= old(threads).entries@.len(),
            thread == (Thread {
                inner: ThreadInner {
                    context: Some(UserContext::initial(entry_addr, ustack_top)),
                    clear_child_tid: 0,
                },
                vm,
                proc: old(procs).procs@.len() as usize,
                tid: thread.tid,
                sig_mask: 0,
            }),
            final(threads).entries@ == old(threads).entries@.insert(thread.tid - INIT, thread),
            final(procs).procs@.len() == old(procs).procs@.len() + 1,
            final(procs).procs@[thread.proc as int]@ == (ProcessView {
                pid: thread.tid,
                threads: seq![thread.tid],
                ..fresh_process(vm, exec_path@)
            }),
            final(procs).procs@[thread.proc as int].threads@.contains(thread.tid),
            final(procs).procs@[thread.proc as int]@.wf(),
            forall|h: int|
                0 <= h < old(procs).procs@.len() ==> final(procs).procs@[h] == old(procs).procs@[h],
            consistent(*old(threads), *old(procs)) ==> consistent(*final(threads), *final(procs)),
    {
        let mut files: Vec<crate::process::FileEntry> = Vec::new();
        files.push(tty_file(0));
        files.push(tty_file(1));
        files.push(tty_file(2));

        let mut context = UserContext::new();
        context.set_ip(entry_addr);
        context.set_sp(ustack_top);
        context.general.rflags = crate::context::INITIAL_RFLAGS;

        let process = Process {
            vm,
            files,
            cwd: "/".to_owned(),
            exec_path: exec_path.to_owned(),
            futexes: Vec::new(),
            semaphores: Vec::new(),
            pid: INIT,
            pgid: 0,
            parent: (INIT, None),
            children: Vec::new(),
            threads: Vec::new(),
            exit_code: 0,
            pending_sigset: 0,
            sig_queue: Vec::new(),
            dispositions: default_dispositions(),
            sigaltstack: SignalStack { sp: 0, flags: 0, size: 0 },
            eventbus: 0,
        };
        proof {
            reveal_strlit("/");
            assert(process.cwd@ =~= seq!['/']);
            assert(process.files@ =~= crate::process::standard_files());
            assert(process@ == fresh_process(vm, exec_path@));
        }
        let handle = procs.insert(process);
        let thread = Thread {
            tid: 0,
            inner: ThreadInner { context: Some(context), clear_child_tid: 0 },
            vm,
            proc: handle,
            sig_mask: 0,
        };
        let res = thread.add_to_table(threads);
        procs.add_to_process_table(res.proc, res.tid);
        procs.add_thread(res.proc, res.tid);
        proof {
            crate::process::lemma_fresh_process_is_wf(vm, exec_path@);
            assert(procs.procs@[res.proc as int].threads@ =~= seq![res.tid]);
            assert(procs.procs@[res.proc as int].threads@[0] == res.tid);
            if consistent(*old(threads), *old(procs)) {
                lemma_new_user_keeps_consistent(*old(threads), *old(procs), *threads, *procs, res);
            }
        }
        res
    }

    /// Makes a new process as a copy of this thread's, with one thread that
    /// resumes from `tf` with 0 as the result of the system call. `vm` is the
    /// child's address space: a copy of this thread's, and another space than
    /// this thread's. `tf` is only read: the caller's own context still awaits
    /// its result.
    pub fn fork(
        &self,
        tf: &UserContext,
        vm: VmHandle,
        threads: &mut ThreadTable,
        procs: &mut ProcessTable,
    ) -> (child: Thread)
        requires
            old(threads).wf(),
            old(threads).entries@.len() < usize::MAX - INIT,
            old(procs).holds(self.proc),
            vm != self.vm,
        ensures
            final(threads).wf(),
            old(threads).is_first_free(child.tid),
            child.vm != self.vm,
            old(procs).procs@[self.proc as int]@.wf() ==> final(procs).procs@[child.proc as int]@.wf(),
            child.tid - INIT <= old(threads).entries@.len(),
            child == (Thread {
                inner: ThreadInner { context: Some(tf.forked()), clear_child_tid: 0 },
                vm,
                proc: old(procs).procs@.len() as usize,
                tid: child.tid,
                sig_mask: self.sig_mask,
            }),
            final(threads).entries@ == old(threads).entries@.insert(child.tid - INIT, child),
            final(procs).procs@.len() == old(procs).procs@.len() + 1,
            final(procs).procs@[child.proc as int]@ == (ProcessView {
                pid: child.tid,
                threads: seq![child.tid],
                ..forked_process(old(procs).procs@[self.proc as int]@, self.proc, vm)
            }),
            final(procs).procs@[self.proc as int]@ == (ProcessView {
                children: old(procs).procs@[self.proc as int].children@.push(
                    (child.tid, child.proc),
                ),
                ..old(procs).procs@[self.proc as int]@
            }),
            forall|h: int|
                0 <= h < old(procs).procs@.len() && h != self.proc ==> final(procs).procs@[h]
                    == old(procs).procs@[h],
            final(procs).linked_to_parent(child.proc),
            final(procs).procs@[child.proc as int].threads@.contains(child.tid),
            consistent(*old(threads), *old(procs)) ==> consistent(*final(threads), *final(procs)),
    {
        let mut context = *tf;
        context.set_syscall_ret(0);

        let parent = &procs.procs[self.proc];
        let new_proc = Process {
            vm,
            files: duplicate(&parent.files),
            cwd: parent.cwd.clone(),
            exec_path: parent.exec_path.clone(),
            futexes: Vec::new(),
            semaphores: duplicate(&parent.semaphores),
            pid: INIT,
            pgid: parent.pgid,
            parent: (parent.pid, Some(self.proc)),
            children: Vec::new(),
            threads: Vec::new(),
            exit_code: 0,
            pending_sigset: 0,
            sig_queue: Vec::new(),
            dispositions: duplicate(&parent.dispositions),
            sigaltstack: SignalStack { sp: 0, flags: 0, size: 0 },
            eventbus: 0,
        };
        proof {
            assert(new_proc@ == forked_process(old(procs).procs@[self.proc as int]@, self.proc, vm));
        }
        let handle = procs.insert(new_proc);
        let new_thread = Thread {
            tid: 0,
            inner: ThreadInner { context: Some(context), clear_child_tid: 0 },
            vm,
            proc: handle,
            sig_mask: self.sig_mask,
        }.add_to_table(threads);

        procs.add_to_process_table(handle, new_thread.tid);
        procs.add_thread(handle, new_thread.tid);
        proof {
            assert(procs.procs@[handle as int].threads@ =~= seq![new_thread.tid]);
        }
        procs.add_child(self.proc, new_thread.tid, handle);
        proof {
            let children = procs.procs@[self.proc as int].children@;
            assert(children[children.len() - 1] == (new_thread.tid, handle));
            assert(procs.procs@[handle as int].threads@[0] == new_thread.tid);
            if old(procs).procs@[self.proc as int]@.wf() {
                crate::process::lemma_forked_process_is_wf(
                    old(procs).procs@[self.proc as int]@,
                    self.proc,
                    vm,
                );
            }
            if consistent(*old(threads), *old(procs)) {
                assert(old(procs).holds(self.proc));
                lemma_fork_keeps_consistent(
                    *old(threads),
                    *old(procs),
                    *threads,
                    *procs,
                    self.proc,
                    new_thread,
                );
            }
        }
        new_thread
    }

    /// Makes a new thread in this thread's process. It resumes from `context`
    /// on the stack at `stack_top`, with `tls` as its thread-local storage and
    /// 0 as the result of the system call.
    pub fn new_clone(
        &self,
        context: &UserContext,
        stack_top: usize,
        tls: usize,
        clear_child_tid: usize,
        threads: &mut ThreadTable,
        procs: &mut ProcessTable,
    ) -> (thread: Thread)
        requires
            old(threads).wf(),
            old(threads).entries@.len() < usize::MAX - INIT,
            old(procs).holds(self.proc),
        ensures
            final(threads).wf(),
            old(threads).is_first_free(thread.tid),
            thread.tid - INIT <= old(threads).entries@.len(),
            thread == (Thread {
                inner: ThreadInner {
                    context: Some(context.cloned_onto(stack_top, tls)),
                    clear_child_tid,
                },
                vm: self.vm,
                proc: self.proc,
                tid: thread.tid,
                sig_mask: self.sig_mask,
            }),
            final(threads).entries@ == old(threads).entries@.insert(thread.tid - INIT, thread),
            final(procs).procs@.len() == old(procs).procs@.len(),
            final(procs).procs@[self.proc as int]@ == (ProcessView {
                threads: old(procs).procs@[self.proc as int].threads@.push(thread.tid),
                ..old(procs).procs@[self.proc as int]@
            }),
            final(procs).procs@[self.proc as int].threads@.contains(thread.tid),
            forall|h: int|
                0 <= h < old(procs).procs@.len() && h != self.proc ==> final(procs).procs@[h]
                    == old(procs).procs@[h],
            consistent(*old(threads), *old(procs)) ==> consistent(*final(threads), *final(procs)),
    {
        let mut new_context = *context;
        new_context.set_syscall_ret(0);
        new_context.set_sp(stack_top);
        new_context.set_tls(tls);

        let thread = Thread {
            tid: 0,
            inner: ThreadInner { clear_child_tid, context: Some(new_context) },
            vm: self.vm,
            proc: self.proc,
            sig_mask: self.sig_mask,
        };
        let res = thread.add_to_table(threads);
        procs.add_thread(res.proc, res.tid);
        proof {
            let listed = procs.procs@[self.proc as int].threads@;
            assert(listed[listed.len() - 1] == res.tid);
            if consistent(*old(threads), *old(procs)) {
                lemma_new_clone_keeps_consistent(*old(threads), *old(procs), *threads, *procs, res);
            }
        }
        res
    }

    /// Takes the saved context out of the thread, to run it in user mode.
    pub fn begin_running(&mut self) -> (cx: UserContext)
        requires
            old(self).inner.context is Some,
        ensures
            Some(cx) == old(self).inner.context,
            *final(self) == (Thread {
                inner: ThreadInner { context: None, ..old(self).inner },
                ..*old(self)
            }),
    {
        let cx = self.inner.context.unwrap();
        self.inner.context = None;
        cx
    }

    /// Puts the context back once the thread's trap has been handled.
    pub fn end_running(&mut self, cx: UserContext)
        ensures
            *final(self) == (Thread {
                inner: ThreadInner { context: Some(cx), ..old(self).inner },
                ..*old(self)
            }),
    {
        self.inner.context = Some(cx);
    }
}

} // verus!
