//! Syscall/IPC engine of a small message-passing kernel.
//!
//! A fixed table of tasks communicates through synchronous rendezvous
//! (SEND / RECEIVE / REPLY), capability-scoped memory lending (BORROW),
//! per-task notification bits with a software timer, and interrupt-line
//! control. Every operation mutates the task table and yields a scheduling
//! hint; the architecture layer around this crate performs the actual
//! context switch and hardware access.

use vstd::prelude::*;

pub mod borrow;
pub mod dispatch;
pub mod err;
pub mod ipc;
pub mod laws;
pub mod task;
pub mod umem;

verus! {

/// Response code written to a task that named a stale or dead peer.
pub const DEAD: u32 = 0xffff_ffff;

/// Response code written to a borrower whose alleged lender is not lending.
pub const DEFECT: u32 = 1;

} // verus!
