//! The user-thread core of a small Unix-like kernel: identifiers and the
//! thread table, process and thread records, the plan for loading a user
//! image, and the decisions of the loop that runs a thread in user mode.

pub mod context;
pub mod process;
pub mod thread;
pub mod task;
pub mod loader;
pub mod invariants;
