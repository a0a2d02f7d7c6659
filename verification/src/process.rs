//! Process records and the table that holds them.

use vstd::prelude::*;

verus! {

/// A process identifier. The thread that heads a process gives it its own
/// identifier.
pub type Pid = usize;

/// A place in the process table. It stands for a shared handle to the record:
/// two handles alias one record exactly when they are equal.
pub type ProcHandle = usize;

/// A handle to an address space. Two handles alias one address space exactly
/// when they are equal.
pub type VmHandle = usize;

/// The first identifier that is ever handed out.
pub const INIT: usize = 1;

/// The highest signal number.
pub const RTMAX: usize = 64;

/// A set of signals, one bit each.
pub type Sigset = u64;

/// How a file was opened.
#[derive(Clone, Copy, Debug, PartialEq, Eq, Structural)]
pub struct OpenOptions {
    pub read: bool,
    pub write: bool,
    pub append: bool,
    pub nonblock: bool,
}

/// What an open file refers to.
#[derive(Clone, Copy, Debug, PartialEq, Eq, Structural)]
pub enum FileTarget {
    /// The system terminal, `/dev/tty`.
    Tty,
    /// Another open-file description, by the number the file system knows it by.
    Description(usize),
}

/// One entry of a process's file table.
#[derive(Clone, Copy, Debug, PartialEq, Eq, Structural)]
pub struct FileEntry {
    pub fd: usize,
    pub target: FileTarget,
    pub options: OpenOptions,
}

/// What a process does on a signal.
#[derive(Clone, Copy, Debug, PartialEq, Eq, Structural)]
pub struct SignalAction {
    pub handler: usize,
    pub flags: usize,
    pub restorer: usize,
    pub mask: Sigset,
}

/// The alternate stack for signal handlers.
#[derive(Clone, Copy, Debug, PartialEq, Eq, Structural)]
pub struct SignalStack {
    pub sp: usize,
    pub flags: u32,
    pub size: usize,
}

/// A queued signal.
#[derive(Clone, Copy, Debug, PartialEq, Eq, Structural)]
pub struct Siginfo {
    pub signo: usize,
    pub code: usize,
    pub value: usize,
}

/// The state of one process.
pub struct Process {
    /// The address space all threads of the process share.
    pub vm: VmHandle,
    /// The open files, by descriptor.
    pub files: Vec<FileEntry>,
    pub cwd: String,
    pub exec_path: String,
    /// The user addresses that have a wait queue.
    pub futexes: Vec<usize>,
    /// The System V semaphore sets the process has attached.
    pub semaphores: Vec<usize>,
    pub pid: Pid,
    pub pgid: usize,
    /// The parent's identifier and, while the parent lives, its record.
    pub parent: (Pid, Option<ProcHandle>),
    pub children: Vec<(Pid, ProcHandle)>,
    /// The threads of this process.
    pub threads: Vec<usize>,
    pub exit_code: usize,
    pub pending_sigset: Sigset,
    pub sig_queue: Vec<Siginfo>,
    /// What to do on each signal, by signal number up to `RTMAX`.
    pub dispositions: Vec<SignalAction>,
    pub sigaltstack: SignalStack,
    /// The events waiters are told of, one bit each.
    pub eventbus: u32,
}

/// A process as contracts see it.
pub struct ProcessView {
    pub vm: VmHandle,
    pub files: Seq<FileEntry>,
    pub cwd: Seq<char>,
    pub exec_path: Seq<char>,
    pub futexes: Seq<usize>,
    pub semaphores: Seq<usize>,
    pub pid: Pid,
    pub pgid: usize,
    pub parent: (Pid, Option<ProcHandle>),
    pub children: Seq<(Pid, ProcHandle)>,
    pub threads: Seq<usize>,
    pub exit_code: usize,
    pub pending_sigset: Sigset,
    pub sig_queue: Seq<Siginfo>,
    pub dispositions: Seq<SignalAction>,
    pub sigaltstack: SignalStack,
    pub eventbus: u32,
}

impl ProcessView {
    /// No descriptor stands twice in the file table, and no address twice
    /// among the wait queues: each is the key of a mapping.
    pub open spec fn wf(self) -> bool {
        &&& forall|i: int, j: int|
            0 <= i < j < self.files.len() ==> (#[trigger] self.files[i]).fd != (
            #[trigger] self.files[j]).fd
        &&& forall|i: int, j: int|
            0 <= i < j < self.futexes.len() ==> #[trigger] self.futexes[i]
                != #[trigger] self.futexes[j]
    }
}

impl View for Process {
    type V = ProcessView;

    open spec fn view(&self) -> ProcessView {
        ProcessView {
            vm: self.vm,
            files: self.files@,
            cwd: self.cwd@,
            exec_path: self.exec_path@,
            futexes: self.futexes@,
            semaphores: self.semaphores@,
            pid: self.pid,
            pgid: self.pgid,
            parent: self.parent,
            children: self.children@,
            threads: self.threads@,
            exit_code: self.exit_code,
            pending_sigset: self.pending_sigset,
            sig_queue: self.sig_queue@,
            dispositions: self.dispositions@,
            sigaltstack: self.sigaltstack,
            eventbus: self.eventbus,
        }
    }
}

/// The process a new program starts as, before it has its identifier: the
/// standard files, the root as working directory, every signal at its default
/// action, `INIT` for a parent but no parent record, no children and no
/// threads yet.
pub open spec fn fresh_process(vm: VmHandle, exec_path: Seq<char>) -> ProcessView {
    ProcessView {
        vm,
        files: standard_files(),
        cwd: seq!['/'],
        exec_path,
        futexes: Seq::empty(),
        semaphores: Seq::empty(),
        pid: INIT,
        pgid: 0,
        parent: (INIT, None),
        children: Seq::empty(),
        threads: Seq::empty(),
        exit_code: 0,
        pending_sigset: 0,
        sig_queue: Seq::empty(),
        dispositions: Seq::new((RTMAX + 1) as nat, |i: int| default_action()),
        sigaltstack: no_signal_stack(),
        eventbus: 0,
    }
}

/// The process a fork makes of `parent`, which stands at `parent_handle`,
/// before it has its identifier. It has the parent's files, directories,
/// process group, semaphores and signal actions, and the address space `vm`;
/// what waits or is pending in the parent is not carried over.
pub open spec fn forked_process(
    parent: ProcessView,
    parent_handle: ProcHandle,
    vm: VmHandle,
) -> ProcessView {
    ProcessView {
        vm,
        files: parent.files,
        cwd: parent.cwd,
        exec_path: parent.exec_path,
        futexes: Seq::empty(),
        semaphores: parent.semaphores,
        pid: INIT,
        pgid: parent.pgid,
        parent: (parent.pid, Some(parent_handle)),
        children: Seq::empty(),
        threads: Seq::empty(),
        exit_code: 0,
        pending_sigset: 0,
        sig_queue: Seq::empty(),
        dispositions: parent.dispositions,
        sigaltstack: no_signal_stack(),
        eventbus: 0,
    }
}

/// The action every signal has until the process changes it.
pub open spec fn default_action() -> SignalAction {
    SignalAction { handler: 0, flags: 0, restorer: 0, mask: 0 }
}

/// No alternate stack.
pub open spec fn no_signal_stack() -> SignalStack {
    SignalStack { sp: 0, flags: 0, size: 0 }
}

/// The entry of a standard descriptor: the terminal, read-only for descriptor
/// 0 and write-only for the others.
pub open spec fn tty_entry(fd: usize) -> FileEntry {
    FileEntry {
        fd,
        target: FileTarget::Tty,
        options: OpenOptions { read: fd == 0, write: fd != 0, append: false, nonblock: false },
    }
}

/// The file table a new program starts with: descriptors 0, 1 and 2.
pub open spec fn standard_files() -> Seq<FileEntry> {
    seq![tty_entry(0), tty_entry(1), tty_entry(2)]
}

/// A new program starts as a well-formed process.
pub proof fn lemma_fresh_process_is_wf(vm: VmHandle, exec_path: Seq<char>)
    ensures
        fresh_process(vm, exec_path).wf(),
{
    let files = standard_files();
    assert(files.len() == 3);
    assert(files[0].fd == 0 && files[1].fd == 1 && files[2].fd == 2);
}

/// A forked process is well formed if its parent is.
pub proof fn lemma_forked_process_is_wf(parent: ProcessView, parent_handle: ProcHandle, vm: VmHandle)
    requires
        parent.wf(),
    ensures
        forked_process(parent, parent_handle, vm).wf(),
{
}

/// The processes, each at the place its handle names. A record keeps its
/// place for good.
pub struct ProcessTable {
    pub procs: Vec<Process>,
}

impl ProcessTable {
    pub fn new() -> (table: ProcessTable)
        ensures
            table.procs@.len() == 0,
    {
        ProcessTable { procs: Vec::new() }
    }

    /// Whether `handle` names a record of this table.
    pub open spec fn holds(self, handle: ProcHandle) -> bool {
        handle < self.procs@.len()
    }

    /// Whether the process at `child` has a live parent whose list of
    /// children names it.
    pub open spec fn linked_to_parent(self, child: ProcHandle) -> bool {
        self.holds(child) && match self.procs@[child as int].parent.1 {
            Some(parent) => self.holds(parent) && self.procs@[parent as int].children@.contains(
                (self.procs@[child as int].pid, child),
            ),
            None => true,
        }
    }

    /// Puts `process` into the table and returns its place.
    pub fn insert(&mut self, process: Process) -> (handle: ProcHandle)
        ensures
            handle == old(self).procs@.len(),
            final(self).procs@ == old(self).procs@.push(process),
    {
        let handle: usize = self.procs.len();
        self.procs.push(process);
        handle
    }

    /// Adds `tid` to the threads of the process at `handle`.
    pub fn add_thread(&mut self, handle: ProcHandle, tid: usize)
        requires
            old(self).holds(handle),
        ensures
            final(self).procs@.len() == old(self).procs@.len(),
            final(self).procs@[handle as int]@ == (ProcessView {
                threads: old(self).procs@[handle as int].threads@.push(tid),
                ..old(self).procs@[handle as int]@
            }),
            forall|h: int|
                0 <= h < old(self).procs@.len() && h != handle ==> final(self).procs@[h] == old(
                    self,
                ).procs@[h],
    {
        self.procs[handle].threads.push(tid);
    }

    /// Adds the process `pid`, which stands at `child`, to the children of
    /// the process at `handle`.
    pub fn add_child(&mut self, handle: ProcHandle, pid: Pid, child: ProcHandle)
        requires
            old(self).holds(handle),
        ensures
            final(self).procs@.len() == old(self).procs@.len(),
            final(self).procs@[handle as int]@ == (ProcessView {
                children: old(self).procs@[handle as int].children@.push((pid, child)),
                ..old(self).procs@[handle as int]@
            }),
            forall|h: int|
                0 <= h < old(self).procs@.len() && h != handle ==> final(self).procs@[h] == old(
                    self,
                ).procs@[h],
    {
        self.procs[handle].children.push((pid, child));
    }

    /// Makes `pid` the identifier of the process at `handle`.
    pub fn add_to_process_table(&mut self, handle: ProcHandle, pid: Pid)
        requires
            old(self).holds(handle),
        ensures
            final(self).procs@.len() == old(self).procs@.len(),
            final(self).procs@[handle as int]@ == (ProcessView {
                pid,
                ..old(self).procs@[handle as int]@
            }),
            forall|h: int|
                0 <= h < old(self).procs@.len() && h != handle ==> final(self).procs@[h] == old(
                    self,
                ).procs@[h],
    {
        self.procs[handle].pid = pid;
    }

    /// The place of the process that `pid` identifies, if there is one. Of
    /// several, the first.
    pub fn find(&self, pid: Pid) -> (found: Option<ProcHandle>)
        ensures
            match found {
                Some(h) => self.holds(h) && self.procs@[h as int].pid == pid && forall|k: int|
                    0 <= k < h ==> self.procs@[k].pid != pid,
                None => forall|k: int| 0 <= k < self.procs@.len() ==> self.procs@[k].pid != pid,
            },
    {
        let mut i: usize = 0;
        while i < self.procs.len()
            invariant
                i <= self.procs@.len(),
                forall|k: int| 0 <= k < i ==> self.procs@[k].pid != pid,
            decreases self.procs@.len() - i,
        {
            if self.procs[i].pid == pid {
                return Some(i);
            }
            i += 1;
        }
        None
    }
}

/// The signal actions of a new program: the default for each signal number
/// up to `RTMAX`.
pub fn default_dispositions() -> (actions: Vec<SignalAction>)
    ensures
        actions@ == Seq::new((RTMAX + 1) as nat, |i: int| default_action()),
{
    let mut actions: Vec<SignalAction> = Vec::new();
    let mut i: usize = 0;
    while i <= RTMAX
        invariant
            i <= RTMAX + 1,
            actions@.len() == i,
            forall|k: int| 0 <= k < i ==> actions@[k] == default_action(),
        decreases RTMAX + 1 - i,
    {
        actions.push(SignalAction { handler: 0, flags: 0, restorer: 0, mask: 0 });
        i += 1;
    }
    proof {
        assert(actions@ =~= Seq::new((RTMAX + 1) as nat, |i: int| default_action()));
    }
    actions
}

/// The entry of a standard descriptor.
pub fn tty_file(fd: usize) -> (entry: FileEntry)
    ensures
        entry == tty_entry(fd),
{
    FileEntry {
        fd,
        target: FileTarget::Tty,
        options: OpenOptions { read: fd == 0, write: fd != 0, append: false, nonblock: false },
    }
}

/// A copy of `items`.
pub fn duplicate<T: Copy>(items: &Vec<T>) -> (copy: Vec<T>)
    ensures
        copy@ == items@,
{
    let mut copy: Vec<T> = Vec::new();
    let mut i: usize = 0;
    while i < items.len()
        invariant
            i <= items@.len(),
            copy@ == items@.take(i as int),
        decreases items@.len() - i,
    {
        copy.push(items[i]);
        proof {
            assert(items@.take(i + 1) == items@.take(i as int).push(items@[i as int]));
        }
        i += 1;
    }
    proof {
        assert(items@.take(items@.len() as int) == items@);
    }
    copy
}

} // verus!
