//! The saved user-mode state of a thread.

use vstd::prelude::*;

verus! {

/// The general registers of an x86-64 user context.
#[derive(Clone, Copy, Debug, PartialEq, Eq, Structural)]
pub struct GeneralRegs {
    pub rax: usize,
    pub rbx: usize,
    pub rcx: usize,
    pub rdx: usize,
    pub rsi: usize,
    pub rdi: usize,
    pub rbp: usize,
    pub rsp: usize,
    pub r8: usize,
    pub r9: usize,
    pub r10: usize,
    pub r11: usize,
    pub r12: usize,
    pub r13: usize,
    pub r14: usize,
    pub r15: usize,
    pub rip: usize,
    pub rflags: usize,
    pub fsbase: usize,
    pub gsbase: usize,
}

/// What is needed to resume a thread in user mode, and why it last left it.
#[derive(Clone, Copy, Debug, PartialEq, Eq, Structural)]
pub struct UserContext {
    pub general: GeneralRegs,
    pub trap_num: usize,
    pub error_code: usize,
}

/// The flags a fresh user thread starts with: interrupts enabled, I/O
/// privilege level 3, and the bit that is always set.
pub const INITIAL_RFLAGS: usize = 0x3202;

impl GeneralRegs {
    /// All registers zero.
    pub open spec fn zeroed() -> GeneralRegs {
        GeneralRegs {
            rax: 0,
            rbx: 0,
            rcx: 0,
            rdx: 0,
            rsi: 0,
            rdi: 0,
            rbp: 0,
            rsp: 0,
            r8: 0,
            r9: 0,
            r10: 0,
            r11: 0,
            r12: 0,
            r13: 0,
            r14: 0,
            r15: 0,
            rip: 0,
            rflags: 0,
            fsbase: 0,
            gsbase: 0,
        }
    }
}

impl Default for UserContext {
    /// Every register, the trap number and the error code zero.
    fn default() -> (cx: UserContext)
        ensures
            cx == UserContext::zeroed(),
    {
        UserContext::new()
    }
}

impl UserContext {
    /// The context with every register, the trap number and the error code zero.
    pub open spec fn zeroed() -> UserContext {
        UserContext { general: GeneralRegs::zeroed(), trap_num: 0, error_code: 0 }
    }

    /// The context a new program starts from: it runs at `entry` on the stack
    /// at `stack_top`, with the initial flags and nothing else set.
    pub open spec fn initial(entry: usize, stack_top: usize) -> UserContext {
        UserContext {
            general: GeneralRegs {
                rip: entry,
                rsp: stack_top,
                rflags: INITIAL_RFLAGS,
                ..GeneralRegs::zeroed()
            },
            ..UserContext::zeroed()
        }
    }

    /// The context of a forked child: the parent's, with 0 as the result of
    /// the system call.
    pub open spec fn forked(self) -> UserContext {
        UserContext { general: GeneralRegs { rax: 0, ..self.general }, ..self }
    }

    /// The context of a cloned thread: the caller's, on its own stack and with
    /// its own thread-local storage, with 0 as the result of the system call.
    pub open spec fn cloned_onto(self, stack_top: usize, tls: usize) -> UserContext {
        UserContext {
            general: GeneralRegs { rax: 0, rsp: stack_top, fsbase: tls, ..self.general },
            ..self
        }
    }

    pub fn new() -> (cx: UserContext)
        ensures
            cx == UserContext::zeroed(),
    {
        UserContext {
            general: GeneralRegs {
                rax: 0,
                rbx: 0,
                rcx: 0,
                rdx: 0,
                rsi: 0,
                rdi: 0,
                rbp: 0,
                rsp: 0,
                r8: 0,
                r9: 0,
                r10: 0,
                r11: 0,
                r12: 0,
                r13: 0,
                r14: 0,
                r15: 0,
                rip: 0,
                rflags: 0,
                fsbase: 0,
                gsbase: 0,
            },
            trap_num: 0,
            error_code: 0,
        }
    }

    /// Sets the instruction pointer.
    pub fn set_ip(&mut self, ip: usize)
        ensures
            *final(self) == (UserContext {
                general: GeneralRegs { rip: ip, ..old(self).general },
                ..*old(self)
            }),
    {
        self.general.rip = ip;
    }

    /// Sets the stack pointer.
    pub fn set_sp(&mut self, sp: usize)
        ensures
            *final(self) == (UserContext {
                general: GeneralRegs { rsp: sp, ..old(self).general },
                ..*old(self)
            }),
    {
        self.general.rsp = sp;
    }

    /// Sets the base of thread-local storage.
    pub fn set_tls(&mut self, tls: usize)
        ensures
            *final(self) == (UserContext {
                general: GeneralRegs { fsbase: tls, ..old(self).general },
                ..*old(self)
            }),
    {
        self.general.fsbase = tls;
    }

    /// Sets the value the pending system call returns to user code.
    pub fn set_syscall_ret(&mut self, ret: usize)
        ensures
            *final(self) == (UserContext {
                general: GeneralRegs { rax: ret, ..old(self).general },
                ..*old(self)
            }),
    {
        self.general.rax = ret;
    }

    /// The value the pending system call returns to user code.
    pub fn get_syscall_ret(&self) -> (ret: usize)
        ensures
            ret == self.general.rax,
    {
        self.general.rax
    }

    /// The stack pointer.
    pub fn get_sp(&self) -> (sp: usize)
        ensures
            sp == self.general.rsp,
    {
        self.general.rsp
    }
}

} // verus!
