//! The syscall dispatcher: demultiplexes a trap into one operation,
//! normalizes recoverable errors and faults, and yields one scheduling
//! decision — plus IRQ-line control, whose hardware effect is handed back
//! as an action for the architecture layer to perform.

use vstd::prelude::*;

use crate::borrow::{
    borrow_info, borrow_info_post, borrow_read, borrow_read_post, borrow_write,
    borrow_write_post, lease_check, LeaseCheck,
};
use crate::err::UserError;
use crate::ipc::{
    deliver_ok, post_rendezvous, receptive_to, recv, recv_post, reply, reply_post, send,
    send_post, task_after_timer, timer,
};
use crate::task::{
    table_wf, task_mut, FaultInfo, NextTask, SavedState, SchedState, Task, TaskState, UsageError,
};
use crate::DEAD;

verus! {

/// One statically configured interrupt binding: hardware line `irq` posts
/// `notification` to task `task`, and only that task may control the line.
#[derive(Clone, Copy, Debug, PartialEq, Eq, Structural)]
pub struct IrqBinding {
    pub irq: u32,
    pub task: u32,
    pub notification: u32,
}

/// What the architecture layer must do to a hardware interrupt line.
#[derive(Clone, Copy, Debug, PartialEq, Eq, Structural)]
pub enum IrqAction {
    Disable(u32),
    Enable(u32),
}

pub open spec fn binding_matches(b: IrqBinding, caller: usize, bitmask: u32) -> bool {
    b.task == caller as u32 && b.notification == bitmask
}

/// The line of the first binding granting `caller` the bit `bitmask`.
pub open spec fn find_binding(irqs: Seq<IrqBinding>, caller: usize, bitmask: u32) -> Option<u32>
    decreases irqs.len(),
{
    if irqs.len() == 0 {
        None
    } else if binding_matches(irqs[0], caller, bitmask) {
        Some(irqs[0].irq)
    } else {
        find_binding(irqs.skip(1), caller, bitmask)
    }
}

proof fn lemma_find_binding_some(irqs: Seq<IrqBinding>, caller: usize, bitmask: u32, i: int)
    requires
        0 <= i < irqs.len(),
        binding_matches(irqs[i], caller, bitmask),
        forall|j: int| 0 <= j < i ==> !binding_matches(#[trigger] irqs[j], caller, bitmask),
    ensures
        find_binding(irqs, caller, bitmask) == Some(irqs[i].irq),
    decreases i,
{
    if i > 0 {
        assert(!binding_matches(irqs[0], caller, bitmask));
        assert forall|j: int| 0 <= j < i - 1
            implies !binding_matches(#[trigger] irqs.skip(1)[j], caller, bitmask)
        by {
            assert(irqs.skip(1)[j] == irqs[j + 1]);
        }
        assert(irqs.skip(1)[i - 1] == irqs[i]);
        lemma_find_binding_some(irqs.skip(1), caller, bitmask, i - 1);
    }
}

proof fn lemma_find_binding_none(irqs: Seq<IrqBinding>, caller: usize, bitmask: u32)
    requires
        forall|j: int| 0 <= j < irqs.len() ==> !binding_matches(#[trigger] irqs[j], caller, bitmask),
    ensures
        find_binding(irqs, caller, bitmask) == None::<u32>,
    decreases irqs.len(),
{
    if irqs.len() > 0 {
        assert forall|j: int| 0 <= j < irqs.skip(1).len()
            implies !binding_matches(#[trigger] irqs.skip(1)[j], caller, bitmask)
        by {
            assert(irqs.skip(1)[j] == irqs[j + 1]);
        }
        lemma_find_binding_none(irqs.skip(1), caller, bitmask);
    }
}

/// The IRQ-CONTROL primitive.
///
/// The caller must name exactly a (notification bit, line) pair it was
/// statically granted; no match is a fault, as is any control code other
/// than disable (0) or enable (1). The matched line and the requested switch
/// come back as an action for the architecture layer; the task table itself
/// is never touched here.
pub fn irq_control(tasks: &Vec<Task>, caller: usize, irq_table: &Vec<IrqBinding>) -> (r: Result<IrqAction, UserError>)
    requires
        caller < tasks@.len(),
    ensures
        ({
            let me = tasks@[caller as int];
            let found = find_binding(irq_table@, caller, me.save.irq_notification);
            let control = me.save.irq_control_code;
            &&& (found is None ==> r == Err::<IrqAction, UserError>(UserError::Unrecoverable(
                FaultInfo::SyscallUsage(UsageError::NoIrq))))
            &&& (found matches Some(irq) ==> {
                &&& (control == 0 ==> r == Ok::<IrqAction, UserError>(IrqAction::Disable(irq)))
                &&& (control == 1 ==> r == Ok::<IrqAction, UserError>(IrqAction::Enable(irq)))
                &&& (control != 0 && control != 1 ==> r == Err::<IrqAction, UserError>(
                    UserError::Unrecoverable(FaultInfo::SyscallUsage(UsageError::NoIrq))))
            })
        }),
{
    let bitmask = tasks[caller].save.irq_notification;
    let control = tasks[caller].save.irq_control_code;

    let mut found: Option<u32> = None;
    let n = irq_table.len();
    let mut i: usize = 0;
    while i < n
        invariant_except_break
            found is None,
        invariant
            n == irq_table@.len(),
            i <= n,
            forall|j: int| 0 <= j < i ==> !binding_matches(#[trigger] irq_table@[j], caller, bitmask),
        ensures
            found matches Some(irq) ==> find_binding(irq_table@, caller, bitmask) == Some(irq),
            found is None ==> forall|j: int|
                0 <= j < irq_table@.len()
                    ==> !binding_matches(#[trigger] irq_table@[j], caller, bitmask),
        decreases n - i,
    {
        let b = irq_table[i];
        if b.task == caller as u32 && b.notification == bitmask {
            proof {
                lemma_find_binding_some(irq_table@, caller, bitmask, i as int);
            }
            found = Some(b.irq);
            break;
        }
        i = i + 1;
    }

    let irq = match found {
        Some(irq) => irq,
        None => {
            proof {
                lemma_find_binding_none(irq_table@, caller, bitmask);
            }
            return Err(UserError::Unrecoverable(FaultInfo::SyscallUsage(UsageError::NoIrq)));
        }
    };

    match control {
        0 => Ok(IrqAction::Disable(irq)),
        1 => Ok(IrqAction::Enable(irq)),
        _ => Err(UserError::Unrecoverable(FaultInfo::SyscallUsage(UsageError::NoIrq))),
    }
}

/// `t` answered with a recoverable error code: it keeps running and sees the
/// code as a return value.
pub open spec fn with_error_response(t: Task, code: u32) -> Task {
    Task { save: SavedState { response_code: code, response_length: 0, ..t.save }, ..t }
}

/// `t` stopped with a fault record.
pub open spec fn with_fault(t: Task, f: FaultInfo) -> Task {
    Task { state: TaskState::Faulted(f), ..t }
}

/// How the dispatcher folds one operation's outcome into the caller and the
/// scheduling decision: success passes through; a recoverable code is
/// written into the caller's saved state and the caller keeps running; a
/// fault stops the caller, atomically with the fault record, and asks the
/// scheduler. Whatever the operation already did to counterpart tasks in
/// `mid` is retained.
pub open spec fn normalized(mid: Seq<Task>, current: usize, res: Result<NextTask, UserError>, t1: Seq<Task>, hint: NextTask) -> bool {
    match res {
        Ok(nt) => t1 == mid && hint == nt,
        Err(UserError::Recoverable(code)) => {
            &&& t1 == mid.update(current as int, with_error_response(mid[current as int], code))
            &&& hint == NextTask::Same
        },
        Err(UserError::Unrecoverable(f)) => {
            &&& t1 == mid.update(current as int, with_fault(mid[current as int], f))
            &&& hint == NextTask::Other
        },
    }
}

/// The same normalization for an operation whose failures are always faults.
pub open spec fn normalized_fault(mid: Seq<Task>, current: usize, res: Result<NextTask, FaultInfo>, t1: Seq<Task>, hint: NextTask) -> bool {
    match res {
        Ok(nt) => t1 == mid && hint == nt,
        Err(f) => {
            &&& t1 == mid.update(current as int, with_fault(mid[current as int], f))
            &&& hint == NextTask::Other
        },
    }
}

/// The syscall dispatcher.
///
/// `nr` is the raw syscall number from user code; `current` is the executing
/// task's validated table index; `now` is the current time for TIMER. One
/// operation runs to completion, a recoverable error is written back into
/// the caller's saved state (the caller keeps running), an unrecoverable one
/// stops the caller, and exactly one scheduling decision comes out — with
/// the interrupt-line action, if any, for the architecture layer.
///
/// An unrecognized syscall number is always a fault, never a recoverable
/// error: it indicates corruption in the caller. For every opcode the
/// contract equates the final table and hint to the dispatched operation's
/// own contract composed with the normalization above, so nothing that an
/// operation promises is lost here; on top of that it spells out the
/// end-to-end outcomes a caller most depends on — naming a dead or invalid
/// peer leaves the caller healthy with the dead-peer code, a bad lease
/// number or offset stops the caller and leaves the lender alone, and a
/// clean rendezvous switches straight to the unblocked callee.
pub fn safe_syscall_entry(nr: u32, current: usize, tasks: &mut Vec<Task>, now: u64, irq_table: &Vec<IrqBinding>) -> (r: (NextTask, Option<IrqAction>))
    requires
        current < old(tasks)@.len(),
        table_wf(old(tasks)@),
        nr == 1 ==> old(tasks)@[current as int].state
            != TaskState::Healthy(SchedState::InSend(current)),
    ensures
        final(tasks)@.len() == old(tasks)@.len(),
        table_wf(final(tasks)@),
        ({
            let t0 = old(tasks)@;
            let t1 = final(tasks)@;
            let me = t0[current as int];
            &&& (nr > 7 ==> {
                &&& t1 == t0.update(current as int, with_fault(me, FaultInfo::SyscallUsage(
                    UsageError::BadSyscallNumber)))
                &&& r == (NextTask::Other, None::<IrqAction>)
            })
            &&& (nr == 3 ==> {
                &&& t1 == t0.update(current as int, task_after_timer(me, now))
                &&& r == (NextTask::Same, None::<IrqAction>)
            })
            // SEND: a dead or invalid callee identity is recoverable, a
            // receptive callee with clean arguments served at once — and the
            // whole path, normalization included, equals the operation's
            // contract.
            &&& (nr == 0 ==> {
                let id = me.save.send_target;
                let c = id.index as int;
                &&& (!crate::task::id_resolves(t0, id) ==> {
                    &&& t1 == t0.update(current as int, with_error_response(me, DEAD))
                    &&& r == (NextTask::Same, None::<IrqAction>)
                })
                &&& (crate::task::id_resolves(t0, id)
                    && receptive_to(t0[c], current) && deliver_ok(me, t0[c]) ==> {
                    &&& post_rendezvous(t0, current as int, c, t1)
                    &&& r == (NextTask::Specific(id.index as usize), None::<IrqAction>)
                })
                &&& exists|mid: Seq<Task>, res: Result<NextTask, UserError>|
                    send_post(t0, current, mid, res)
                        && #[trigger] normalized(mid, current, res, t1, r.0)
            })
            // RECEIVE: the whole path equals the operation's contract plus
            // fault normalization.
            &&& (nr == 1 ==> exists|mid: Seq<Task>, res: Result<NextTask, FaultInfo>|
                recv_post(t0, current, mid, res)
                    && #[trigger] normalized_fault(mid, current, res, t1, r.0))
            // REPLY: a dead, invalid or absent target is a silent no-op
            // success; the whole path equals the operation's contract plus
            // fault normalization.
            &&& (nr == 2 ==> {
                let id = me.save.reply_target;
                let c = id.index as int;
                &&& (!crate::task::id_resolves(t0, id) ==> {
                    &&& t1 == t0
                    &&& r == (NextTask::Same, None::<IrqAction>)
                })
                &&& (crate::task::id_resolves(t0, id)
                    && t0[c].state != TaskState::Healthy(SchedState::InReply(current)) ==> {
                    &&& t1 == t0
                    &&& r == (NextTask::Same, None::<IrqAction>)
                })
                &&& exists|mid: Seq<Task>, res: Result<NextTask, FaultInfo>|
                    reply_post(t0, current, mid, res)
                        && #[trigger] normalized_fault(mid, current, res, t1, r.0)
            })
            // BORROW: a dead or invalid lender identity is recoverable; a
            // lease number or offset out of range stops the borrower and no
            // one else; and each whole path equals its operation's contract
            // plus normalization.
            &&& (nr == 4 ==> exists|mid: Seq<Task>, res: Result<NextTask, UserError>|
                borrow_read_post(t0, current, mid, res)
                    && #[trigger] normalized(mid, current, res, t1, r.0))
            &&& (nr == 5 ==> exists|mid: Seq<Task>, res: Result<NextTask, UserError>|
                borrow_write_post(t0, current, mid, res)
                    && #[trigger] normalized(mid, current, res, t1, r.0))
            &&& (nr == 6 ==> exists|mid: Seq<Task>, res: Result<NextTask, UserError>|
                borrow_info_post(t0, current, mid, res)
                    && #[trigger] normalized(mid, current, res, t1, r.0))
            &&& (nr == 4 || nr == 5 || nr == 6 ==> {
                let id = me.save.borrow_lender;
                let c = id.index as int;
                let buf_ok = nr == 6 || me.save.borrow_buf_ok();
                let offset = if nr == 6 { 0u32 } else { me.save.borrow_offset };
                &&& (buf_ok && !crate::task::id_resolves(t0, id) ==> {
                    &&& t1 == t0.update(current as int, with_error_response(me, DEAD))
                    &&& r == (NextTask::Same, None::<IrqAction>)
                })
                &&& (buf_ok && crate::task::id_resolves(t0, id) ==> {
                    let chk = lease_check(me, t0[c], current, offset);
                    &&& (chk is BadNumber ==> {
                        &&& t1 == t0.update(current as int, with_fault(me, FaultInfo::SyscallUsage(
                            UsageError::LeaseOutOfRange)))
                        &&& r == (NextTask::Other, None::<IrqAction>)
                    })
                    &&& (chk is BadOffset ==> {
                        &&& t1 == t0.update(current as int, with_fault(me, FaultInfo::SyscallUsage(
                            UsageError::OffsetOutOfRange)))
                        &&& r == (NextTask::Other, None::<IrqAction>)
                    })
                    &&& (chk is Defect ==> {
                        &&& t1 == t0.update(current as int, with_error_response(me, crate::DEFECT))
                        &&& r == (NextTask::Same, None::<IrqAction>)
                    })
                    // A lease without the requested access direction is a
                    // defecting lender too, and copies nothing.
                    &&& (chk matches LeaseCheck::Good(lease) ==> {
                        &&& (nr == 4 && lease.attributes & crate::umem::LEASE_READ == 0 ==> {
                            &&& t1 == t0.update(current as int, with_error_response(me, crate::DEFECT))
                            &&& r == (NextTask::Same, None::<IrqAction>)
                        })
                        &&& (nr == 5 && lease.attributes & crate::umem::LEASE_WRITE == 0 ==> {
                            &&& t1 == t0.update(current as int, with_error_response(me, crate::DEFECT))
                            &&& r == (NextTask::Same, None::<IrqAction>)
                        })
                    })
                })
            })
            // IRQ-CONTROL: only a statically granted (task, bit) pair may
            // drive its line; anything else is a fault.
            &&& (nr == 7 ==> {
                let found = find_binding(irq_table@, current, me.save.irq_notification);
                let control = me.save.irq_control_code;
                &&& (found is None ==> {
                    &&& t1 == t0.update(current as int, with_fault(me, FaultInfo::SyscallUsage(
                        UsageError::NoIrq)))
                    &&& r == (NextTask::Other, None::<IrqAction>)
                })
                &&& (found matches Some(irq) ==> {
                    &&& (control == 0 ==> {
                        &&& t1 == t0
                        &&& r == (NextTask::Same, Some(IrqAction::Disable(irq)))
                    })
                    &&& (control == 1 ==> {
                        &&& t1 == t0
                        &&& r == (NextTask::Same, Some(IrqAction::Enable(irq)))
                    })
                    &&& (control != 0 && control != 1 ==> {
                        &&& t1 == t0.update(current as int, with_fault(me, FaultInfo::SyscallUsage(
                            UsageError::NoIrq)))
                        &&& r == (NextTask::Other, None::<IrqAction>)
                    })
                })
            })
            // Only IRQ-CONTROL ever asks the architecture layer to touch a
            // hardware line.
            &&& (nr != 7 ==> r.1 is None)
        }),
{
    let mut action: Option<IrqAction> = None;
    let ghost mut fault_res: Result<NextTask, FaultInfo> = Ok(NextTask::Same);
    let res: Result<NextTask, UserError> = match nr {
        0 => send(tasks, current),
        1 => {
            let rr = recv(tasks, current);
            proof {
                fault_res = rr;
            }
            match rr {
                Ok(nt) => Ok(nt),
                Err(f) => Err(UserError::Unrecoverable(f)),
            }
        }
        2 => {
            let rr = reply(tasks, current);
            proof {
                fault_res = rr;
            }
            match rr {
                Ok(nt) => Ok(nt),
                Err(f) => Err(UserError::Unrecoverable(f)),
            }
        }
        3 => {
            let t = task_mut(tasks, current);
            let nt = timer(t, now);
            proof {
                crate::task::lemma_table_wf_preserved(old(tasks)@, tasks@);
            }
            Ok(nt)
        }
        4 => borrow_read(tasks, current),
        5 => borrow_write(tasks, current),
        6 => borrow_info(tasks, current),
        7 => match irq_control(tasks, current, irq_table) {
            Ok(a) => {
                action = Some(a);
                Ok(NextTask::Same)
            }
            Err(e) => Err(e),
        },
        _ => {
            // Bogus syscall number: that is a fault.
            Err(UserError::Unrecoverable(FaultInfo::SyscallUsage(UsageError::BadSyscallNumber)))
        }
    };
    let ghost mid = tasks@;
    let out: (NextTask, Option<IrqAction>) = match res {
        Ok(nt) => (nt, action),
        Err(UserError::Recoverable(code)) => {
            // The caller keeps running and reads the code as a return value.
            let t = task_mut(tasks, current);
            t.set_error_response(code);
            proof {
                crate::task::lemma_table_wf_preserved(mid, tasks@);
            }
            (NextTask::Same, action)
        }
        Err(UserError::Unrecoverable(fault)) => {
            // The caller is stopped until external supervision restarts it.
            let t = task_mut(tasks, current);
            let n = t.force_fault(fault);
            proof {
                crate::task::lemma_table_wf_preserved(mid, tasks@);
            }
            (n, action)
        }
    };
    proof {
        if nr == 0 {
            assert(send_post(old(tasks)@, current, mid, res));
            assert(normalized(mid, current, res, tasks@, out.0));
        }
        if nr == 1 {
            assert(recv_post(old(tasks)@, current, mid, fault_res));
            assert(normalized_fault(mid, current, fault_res, tasks@, out.0));
        }
        if nr == 2 {
            assert(reply_post(old(tasks)@, current, mid, fault_res));
            assert(normalized_fault(mid, current, fault_res, tasks@, out.0));
        }
        if nr == 4 {
            assert(borrow_read_post(old(tasks)@, current, mid, res));
            assert(normalized(mid, current, res, tasks@, out.0));
        }
        if nr == 5 {
            assert(borrow_write_post(old(tasks)@, current, mid, res));
            assert(normalized(mid, current, res, tasks@, out.0));
        }
        if nr == 6 {
            assert(borrow_info_post(old(tasks)@, current, mid, res));
            assert(normalized(mid, current, res, tasks@, out.0));
        }
    }
    out
}

} // verus!
