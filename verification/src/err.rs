//! Error propagation: recoverable response codes versus task faults, and the
//! two-sided fault outcome of a cross-task interaction.

use vstd::prelude::*;

use crate::task::{FaultInfo, NextTask, Task, TaskState};

verus! {

/// How a failed syscall reaches the calling task: either as a numeric
/// response code (the caller keeps running) or as a fault record (the caller
/// is stopped).
#[derive(Clone, Copy, Debug, PartialEq, Eq)]
pub enum UserError {
    Recoverable(u32),
    Unrecoverable(FaultInfo),
}

/// Outcome of an interaction between a sending and a receiving task where
/// either side — or both — may be at fault. Never describes a partial copy:
/// when either side is invalid, no byte has moved.
#[derive(Clone, Copy, Debug, PartialEq, Eq)]
pub struct InteractFault {
    pub src: Option<FaultInfo>,
    pub dst: Option<FaultInfo>,
}

/// The task stopped by `f`, or unchanged when there is nothing to apply.
pub open spec fn faulted_if(t: Task, f: Option<FaultInfo>) -> Task {
    match f {
        Some(fault) => Task { state: TaskState::Faulted(fault), ..t },
        None => t,
    }
}

impl InteractFault {
    /// Blame the sending side alone.
    pub fn in_src(f: FaultInfo) -> (r: Self)
        ensures
            r == (InteractFault { src: Some(f), dst: None::<FaultInfo> }),
    {
        InteractFault { src: Some(f), dst: None }
    }

    /// Blame the receiving side alone.
    pub fn in_dst(f: FaultInfo) -> (r: Self)
        ensures
            r == (InteractFault { src: None::<FaultInfo>, dst: Some(f) }),
    {
        InteractFault { src: None, dst: Some(f) }
    }

    /// Apply the source-side fault to the given task (the sender) and hand
    /// any fault on the other side back to the caller of the syscall.
    pub fn apply_to_src(self, task: &mut Task) -> (r: Result<NextTask, FaultInfo>)
        ensures
            *final(task) == faulted_if(*old(task), self.src),
            r == (match self.dst {
                Some(f) => Err::<NextTask, FaultInfo>(f),
                None => Ok::<NextTask, FaultInfo>(match self.src {
                    Some(_) => NextTask::Other,
                    None => NextTask::Same,
                }),
            }),
    {
        let hint = match self.src {
            Some(f) => task.force_fault(f),
            None => NextTask::Same,
        };
        match self.dst {
            Some(f) => Err(f),
            None => Ok(hint),
        }
    }

    /// Apply the destination-side fault to the given task (the receiver) and
    /// hand any fault on the other side back to the caller of the syscall.
    pub fn apply_to_dst(self, task: &mut Task) -> (r: Result<NextTask, FaultInfo>)
        ensures
            *final(task) == faulted_if(*old(task), self.dst),
            r == (match self.src {
                Some(f) => Err::<NextTask, FaultInfo>(f),
                None => Ok::<NextTask, FaultInfo>(match self.dst {
                    Some(_) => NextTask::Other,
                    None => NextTask::Same,
                }),
            }),
    {
        let hint = match self.dst {
            Some(f) => task.force_fault(f),
            None => NextTask::Same,
        };
        match self.src {
            Some(f) => Err(f),
            None => Ok(hint),
        }
    }
}

} // verus!
