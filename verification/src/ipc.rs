//! The rendezvous IPC state machine: SEND, RECEIVE, REPLY, the shared
//! delivery primitive, and the TIMER syscall.

use vstd::prelude::*;

use crate::err::{faulted_if, InteractFault, UserError};
use crate::task::{
    priority_scan, recv_stamped, table_wf, task_mut, FaultInfo, NextTask, SavedState, ScanGoal,
    SchedState, Task, TaskId, TaskState, UsageError, KERNEL_INDEX,
};
use crate::umem::{
    copy_fault, min32, safe_copy, slice_arg_ok, slice_bytes, write_view, USlice,
};
use crate::DEAD;

verus! {

/// The first malformed-argument fault in a sender's argument views, in the
/// order delivery inspects them: message, response buffer, lease table.
pub open spec fn send_args_fault(save: SavedState) -> Option<FaultInfo> {
    if !save.send_msg_ok() {
        Some(FaultInfo::SyscallUsage(UsageError::InvalidSlice))
    } else if !save.send_resp_ok() {
        Some(FaultInfo::SyscallUsage(UsageError::InvalidSlice))
    } else if !save.lease_table_ok() {
        Some(FaultInfo::SyscallUsage(UsageError::InvalidSlice))
    } else {
        None
    }
}

/// The exact two-sided fault a delivery from `src` to `dst` produces, `None`
/// on both sides when it would succeed. Sender argument faults are found
/// first and mask everything else; then the receiver's buffer claim; then
/// both sides' access rights, checked independently.
pub open spec fn deliver_fault(src: Task, dst: Task) -> InteractFault {
    match send_args_fault(src.save) {
        Some(f) => InteractFault { src: Some(f), dst: None },
        None => {
            if !dst.save.recv_buf_ok() {
                InteractFault {
                    src: None,
                    dst: Some(FaultInfo::SyscallUsage(UsageError::InvalidSlice)),
                }
            } else {
                copy_fault(src, src.save.send_msg_slice(), dst, dst.save.recv_buf_slice())
            }
        }
    }
}

/// Delivery from `src` to `dst` succeeds: all argument views well formed and
/// both regions accessible.
pub open spec fn deliver_ok(src: Task, dst: Task) -> bool {
    deliver_fault(src, dst) == (InteractFault { src: None::<FaultInfo>, dst: None::<FaultInfo> })
}

/// How many bytes a delivery moves: the message, truncated to the receive
/// buffer.
pub open spec fn delivered_len(src: Task, dst: Task) -> u32 {
    min32(src.save.send_message_len, dst.save.recv_buffer_len)
}

/// `t1` is `t0` after a successful delivery from slot `s` to slot `r`:
/// the message prefix copied into the receiver's buffer, the receiver
/// stamped with sender identity, operation, length, response capacity and
/// lease count and made runnable, the sender left waiting for the reply,
/// everyone else untouched.
pub open spec fn post_rendezvous(t0: Seq<Task>, s: int, r: int, t1: Seq<Task>) -> bool {
    &&& t1.len() == t0.len()
    &&& (forall|j: int| 0 <= j < t0.len() && j != s && j != r ==> t1[j] == t0[j])
    &&& (s != r ==> t1[s] == (Task {
        state: TaskState::Healthy(SchedState::InReply(r as usize)),
        ..t0[s]
    }))
    &&& stamped_from(t0[s], t0[r], s as usize, t1[r])
}

/// Transfer a message from `caller`'s context into `callee`'s.
///
/// Shared by the SEND path (callee was already waiting in receive) and the
/// RECEIVE path (caller was already waiting in send); neither task need be
/// the one currently scheduled. On success both tasks change state together:
/// the sender to waiting-for-reply, the receiver to runnable with the message
/// and its metadata already in hand. On any validation failure in either
/// party, nothing at all changes and the precise two-sided fault is handed
/// back for the syscall path to apply.
pub fn deliver(tasks: &mut Vec<Task>, caller: usize, callee: usize) -> (r: Result<(), InteractFault>)
    requires
        caller < old(tasks)@.len(),
        callee < old(tasks)@.len(),
        table_wf(old(tasks)@),
    ensures
        final(tasks)@.len() == old(tasks)@.len(),
        table_wf(final(tasks)@),
        deliver_ok(old(tasks)@[caller as int], old(tasks)@[callee as int]) ==> {
            &&& r == Ok::<(), InteractFault>(())
            &&& post_rendezvous(old(tasks)@, caller as int, callee as int, final(tasks)@)
        },
        !deliver_ok(old(tasks)@[caller as int], old(tasks)@[callee as int]) ==> {
            &&& r == Err::<(), InteractFault>(deliver_fault(
                old(tasks)@[caller as int],
                old(tasks)@[callee as int],
            ))
            &&& final(tasks)@ == old(tasks)@
        },
{
    // Collect the send-side argument views. They live in infallibly readable
    // saved state, but the slices they claim may be garbage.
    let src_save = tasks[caller].save;
    let caller_id = TaskId { index: caller as u16, generation: tasks[caller].generation };
    let src_slice = match USlice::from_raw(src_save.send_message_base, src_save.send_message_len) {
        Ok(s) => s,
        Err(e) => {
            return Err(InteractFault::in_src(FaultInfo::SyscallUsage(e)));
        }
    };
    let resp_slice = match USlice::from_raw(src_save.send_response_base, src_save.send_response_len) {
        Ok(s) => s,
        Err(e) => {
            return Err(InteractFault::in_src(FaultInfo::SyscallUsage(e)));
        }
    };
    let lease_count = src_save.send_lease_count;
    if !((src_save.send_lease_base as u64) + 12u64 * (lease_count as u64) <= 0x1_0000_0000u64) {
        return Err(InteractFault::in_src(FaultInfo::SyscallUsage(UsageError::InvalidSlice)));
    }

    // The receive-side buffer claim.
    let dst_save = tasks[callee].save;
    let dest_slice = match USlice::from_raw(dst_save.recv_buffer_base, dst_save.recv_buffer_len) {
        Ok(s) => s,
        Err(e) => {
            return Err(InteractFault::in_dst(FaultInfo::SyscallUsage(e)));
        }
    };

    // Attempt the copy; this re-checks both regions against their owners.
    let amount = match safe_copy(tasks, caller, src_slice, callee, dest_slice) {
        Ok(n) => n,
        Err(f) => {
            return Err(f);
        }
    };

    // Stamp the receiver with everything it needs to know about the message,
    // then switch both parties' states together.
    let t = task_mut(tasks, callee);
    t.set_recv_result(caller_id, src_save.send_operation as u32, amount, resp_slice.len, lease_count);
    let t = task_mut(tasks, caller);
    t.state = TaskState::Healthy(SchedState::InReply(callee));
    let t = task_mut(tasks, callee);
    t.state = TaskState::Healthy(SchedState::Runnable);
    proof {
        crate::task::lemma_table_wf_preserved(old(tasks)@, tasks@);
    }
    Ok(())
}

/// The callee is ready to take a message from `caller`: blocked in an open
/// receive, or in a directed receive naming exactly this caller.
pub open spec fn receptive_to(t: Task, caller: usize) -> bool {
    ||| t.state == TaskState::Healthy(SchedState::InRecv(Some(caller)))
    ||| t.state == TaskState::Healthy(SchedState::InRecv(None::<usize>))
}

/// The exact relation between the table and result of a SEND by `caller`
/// and the table it started from.
pub open spec fn send_post(t0: Seq<Task>, caller: usize, t1: Seq<Task>, r: Result<NextTask, UserError>) -> bool {
    let id = t0[caller as int].save.send_target;
    let c = id.index as int;
    &&& t1.len() == t0.len()
    &&& (!crate::task::id_resolves(t0, id) ==> {
        &&& r == Err::<NextTask, UserError>(UserError::Recoverable(DEAD))
        &&& t1 == t0
    })
    &&& (crate::task::id_resolves(t0, id) ==> {
        let src = t0[caller as int];
        let dst = t0[c];
        &&& (!receptive_to(dst, caller) ==> {
            &&& r == Ok::<NextTask, UserError>(NextTask::Other)
            &&& t1 == t0.update(caller as int, Task {
                state: TaskState::Healthy(SchedState::InSend(id.index as usize)),
                ..src
            })
        })
        &&& (receptive_to(dst, caller) && deliver_ok(src, dst) ==> {
            &&& r == Ok::<NextTask, UserError>(NextTask::Specific(id.index as usize))
            &&& post_rendezvous(t0, caller as int, c, t1)
        })
        &&& (receptive_to(dst, caller) && !deliver_ok(src, dst) ==> {
            let f = deliver_fault(src, dst);
            let t_mid = t0.update(c, faulted_if(dst, f.dst));
            &&& (f.src matches Some(ff) ==> {
                &&& r == Err::<NextTask, UserError>(UserError::Unrecoverable(ff))
                &&& t1 == t_mid
            })
            &&& (f.src is None ==> {
                &&& r == Ok::<NextTask, UserError>(NextTask::Other)
                &&& t1 == t_mid.update(caller as int, Task {
                    state: TaskState::Healthy(SchedState::InSend(id.index as usize)),
                    ..t_mid[caller as int]
                })
            })
        })
    })
}

/// The SEND primitive.
///
/// Resolves the callee identity; a stale or impossible one is a recoverable
/// "dead recipient" answer, never a fault. If the callee is receptive the
/// message is delivered at once and the hint proposes switching straight to
/// the now-unblocked callee (sends flow from lower- to higher-priority tasks
/// by convention, so no wider scheduling question arises). If delivery
/// uncovers a fault, the guilty party or parties are stopped — the callee
/// here, the caller by the dispatcher via the returned fault — and a
/// surviving caller blocks as if the callee had simply been busy. A
/// non-receptive callee blocks the caller in `InSend(callee)`.
pub fn send(tasks: &mut Vec<Task>, caller: usize) -> (r: Result<NextTask, UserError>)
    requires
        caller < old(tasks)@.len(),
        table_wf(old(tasks)@),
    ensures
        table_wf(final(tasks)@),
        send_post(old(tasks)@, caller, final(tasks)@, r),
{
    let id = tasks[caller].save.send_target;
    let callee = match crate::task::check_task_id_against_table(tasks, id) {
        Ok(i) => i,
        Err(e) => {
            proof {
                assert(final(tasks)@ =~= old(tasks)@);
            }
            return Err(e);
        }
    };

    let receptive = match tasks[callee].state {
        TaskState::Healthy(SchedState::InRecv(Some(x))) => x == caller,
        TaskState::Healthy(SchedState::InRecv(None)) => true,
        _ => false,
    };

    if receptive {
        match deliver(tasks, caller, callee) {
            Ok(_) => {
                // Delivered; propose running the callee it unblocked.
                return Ok(NextTask::Specific(callee));
            }
            Err(interact) => {
                // Apply any receiver-side fault; a sender-side fault goes up
                // to the dispatcher, which stops the caller. A surviving
                // caller falls through and blocks below.
                let t = task_mut(tasks, callee);
                let applied = interact.apply_to_dst(t);
                proof {
                    crate::task::lemma_table_wf_preserved(old(tasks)@, tasks@);
                }
                match applied {
                    Err(f) => {
                        return Err(UserError::Unrecoverable(f));
                    }
                    Ok(_) => {}
                }
            }
        }
    }

    // Callee is busy, faulted, or simply not receiving: block the caller
    // offering the message. Some other task should run meanwhile.
    let t = task_mut(tasks, caller);
    t.state = TaskState::Healthy(SchedState::InSend(callee));
    proof {
        crate::task::lemma_table_wf_preserved(old(tasks)@, tasks@);
    }
    Ok(NextTask::Other)
}

/// `new_t` is `dst` after taking delivery from `src` (which sits in slot
/// `s`): message prefix in the receive buffer, metadata stamped, runnable.
pub open spec fn stamped_from(src: Task, dst: Task, s: usize, new_t: Task) -> bool {
    let n = delivered_len(src, dst);
    let buf = dst.save.recv_buf_slice();
    &&& new_t == (Task {
        state: TaskState::Healthy(SchedState::Runnable),
        save: recv_stamped(
            dst.save,
            TaskId { index: s as u16, generation: src.generation },
            src.save.send_operation as u32,
            n,
            src.save.send_response_len,
            src.save.send_lease_count,
        ),
        mem: new_t.mem,
        ..dst
    })
    &&& new_t.mem@ == write_view(
        dst.mem@,
        buf.base - dst.mem_base,
        slice_bytes(src, src.save.send_msg_slice()).take(n as int),
    )
    &&& new_t.mem@.len() == dst.mem@.len()
}

/// What RECEIVE may do to bystanders: a task not sending to the caller is
/// untouched; one that is may be left alone, stopped for its own delivery
/// fault, or switched to awaiting the caller's reply.
pub open spec fn recv_frame(t_m: Seq<Task>, caller: usize, t1: Seq<Task>) -> bool {
    &&& (forall|j: int|
        0 <= j < t_m.len() && j != caller
            && (#[trigger] t_m[j]).state != TaskState::Healthy(SchedState::InSend(caller))
            ==> t1[j] == t_m[j])
    &&& (forall|j: int|
        0 <= j < t_m.len() && j != caller
            && (#[trigger] t_m[j]).state == TaskState::Healthy(SchedState::InSend(caller))
            ==> t1[j] == t_m[j]
                || (deliver_fault(t_m[j], t_m[caller as int]).src matches Some(f)
                    && t1[j] == (Task { state: TaskState::Faulted(f), ..t_m[j] }))
                || (deliver_ok(t_m[j], t_m[caller as int]) && t1[j] == (Task {
                    state: TaskState::Healthy(SchedState::InReply(caller)),
                    ..t_m[j]
                })))
}

/// RECEIVE resumed at once because slot `s` was sending to the caller and
/// its message delivered: the caller holds the stamped message, the sender
/// awaits the reply.
pub open spec fn recv_took_from(t_m: Seq<Task>, caller: usize, s: int, t1: Seq<Task>) -> bool {
    &&& 0 <= s < t_m.len()
    &&& s != caller
    &&& t_m[s].state == TaskState::Healthy(SchedState::InSend(caller))
    &&& deliver_ok(t_m[s], t_m[caller as int])
    &&& stamped_from(t_m[s], t_m[caller as int], s as usize, t1[caller as int])
    &&& t1[s] == (Task { state: TaskState::Healthy(SchedState::InReply(caller)), ..t_m[s] })
}

/// RECEIVE surfaced a caller-side fault `f`, found while taking delivery
/// from the task in slot `s`.
pub open spec fn recv_err_from(t_m: Seq<Task>, caller: usize, s: int, f: FaultInfo) -> bool {
    &&& 0 <= s < t_m.len()
    &&& s != caller
    &&& t_m[s].state == TaskState::Healthy(SchedState::InSend(caller))
    &&& deliver_fault(t_m[s], t_m[caller as int]).dst == Some(f)
}

/// How many tasks are blocked sending to `caller`.
pub open spec fn num_sending(tasks: Seq<Task>, caller: usize) -> nat
    decreases tasks.len(),
{
    if tasks.len() == 0 {
        0nat
    } else {
        num_sending(tasks.drop_last(), caller) + (if crate::task::goal_matches(
            ScanGoal::SendingTo(caller),
            tasks.last(),
        ) {
            1nat
        } else {
            0nat
        })
    }
}

/// Replacing a sender by a non-sender strictly shrinks the sender count:
/// the measure behind the receive retry loop's termination.
proof fn lemma_num_sending_update(tasks: Seq<Task>, caller: usize, i: int, t: Task)
    requires
        0 <= i < tasks.len(),
        crate::task::goal_matches(ScanGoal::SendingTo(caller), tasks[i]),
        !crate::task::goal_matches(ScanGoal::SendingTo(caller), t),
    ensures
        num_sending(tasks.update(i, t), caller) < num_sending(tasks, caller),
    decreases tasks.len(),
{
    let upd = tasks.update(i, t);
    if i == tasks.len() - 1 {
        assert(upd.drop_last() =~= tasks.drop_last());
    } else {
        assert(upd.drop_last() =~= tasks.drop_last().update(i, t));
        lemma_num_sending_update(tasks.drop_last(), caller, i, t);
    }
}

/// Two slots a priority scan picks are the same slot: scan positions are
/// distinct across the table.
proof fn lemma_scan_picks_unique(tasks: Seq<Task>, last: int, g: ScanGoal, i: int, j: int)
    requires
        0 <= last < tasks.len(),
        crate::task::scan_picks(tasks, last, g, i),
        crate::task::scan_picks(tasks, last, g, j),
    ensures
        i == j,
{
    assert(tasks[i].priority == tasks[j].priority);
    assert(crate::task::scan_off(last, tasks.len() as int, i)
        == crate::task::scan_off(last, tasks.len() as int, j));
}

/// The exact relation between the table and result of a RECEIVE by `caller`
/// and the table it started from.
pub open spec fn recv_post(t0: Seq<Task>, caller: usize, t1: Seq<Task>, r: Result<NextTask, FaultInfo>) -> bool {
            let me = t0[caller as int];
            let mask = me.save.recv_notification_mask;
            let firing = me.notifications & mask;
            let t_m = t0.update(caller as int, Task { notification_mask: mask, ..me });
            &&& (firing != 0 ==> {
                &&& r == Ok::<NextTask, FaultInfo>(NextTask::Same)
                &&& t1 == t0.update(caller as int, Task {
                    notification_mask: mask,
                    notifications: me.notifications & !mask,
                    save: recv_stamped(
                        me.save,
                        TaskId { index: KERNEL_INDEX, generation: 0 },
                        firing,
                        0,
                        0,
                        0,
                    ),
                    ..me
                })
            })
            &&& (firing == 0 ==> {
                // Senders may only have been left alone, stopped for their
                // own delivery fault, or switched to awaiting our reply;
                // everyone else is untouched.
                &&& recv_frame(t_m, caller, t1)
                // Nobody at all sending: block in an open receive.
                &&& ((forall|j: int| 0 <= j < t0.len()
                        ==> (#[trigger] t0[j]).state != TaskState::Healthy(SchedState::InSend(caller)))
                    ==> {
                        &&& r == Ok::<NextTask, FaultInfo>(NextTask::Other)
                        &&& t1 == t0.update(caller as int, Task {
                            notification_mask: mask,
                            state: TaskState::Healthy(SchedState::InRecv(None::<usize>)),
                            ..me
                        })
                    })
                // The scan's first pick, when its delivery is clean, is
                // served exactly.
                &&& (forall|s: int|
                    crate::task::scan_picks(t_m, caller as int, ScanGoal::SendingTo(caller), s)
                        && deliver_ok(t_m[s], t_m[caller as int])
                        ==> r == Ok::<NextTask, FaultInfo>(NextTask::Same)
                            && post_rendezvous(t_m, s, caller as int, t1))
                // Any same-task resumption took delivery from some sender.
                &&& (r == Ok::<NextTask, FaultInfo>(NextTask::Same)
                    ==> exists|s: int| #[trigger] recv_took_from(t_m, caller, s, t1))
                // Blocking means every sender has been dealt with.
                &&& (r == Ok::<NextTask, FaultInfo>(NextTask::Other) ==> {
                    &&& t1[caller as int] == (Task {
                        notification_mask: mask,
                        state: TaskState::Healthy(SchedState::InRecv(None::<usize>)),
                        ..me
                    })
                    &&& forall|j: int| 0 <= j < t0.len() && j != caller
                        ==> (#[trigger] t1[j]).state != TaskState::Healthy(SchedState::InSend(caller))
                })
                // A fault bubbling up is the caller's own, found while some
                // sender's message was being taken.
                &&& (r matches Err(f) ==> {
                    &&& t1[caller as int] == t_m[caller as int]
                    &&& exists|s: int| #[trigger] recv_err_from(t_m, caller, s, f)
                })
            })
            &&& t1.len() == t0.len()
            // A receive resumes the caller or asks the scheduler; it never
            // proposes a specific other task, so the caller's slot — its
            // freshly replaced mask above all — is pinned on every outcome.
            &&& (r matches Ok(nt) ==> nt == NextTask::Same || nt == NextTask::Other)
}

/// The RECEIVE primitive.
///
/// First the caller's notification mask is atomically replaced; any pending
/// bits that now fire are consumed at once as an artificial message from the
/// kernel, and the caller resumes without blocking. Otherwise the table is
/// scanned, in priority order resuming just past the last position tried,
/// for a task blocked sending to the caller. A found sender whose message
/// delivers leaves that sender waiting for the reply and resumes the caller
/// with the message in hand. A sender whose delivery uncovers a fault on its
/// own side is stopped and the scan resumes past it, so a permanently faulty
/// candidate cannot livelock the search; a fault on the *caller's* side goes
/// up to the dispatcher. With nothing pending and nobody sending, the caller
/// blocks in an open receive.
///
/// The caller is the task executing this syscall, so the table cannot
/// record it as blocked sending to itself; the contract relies on that much.
pub fn recv(tasks: &mut Vec<Task>, caller: usize) -> (r: Result<NextTask, FaultInfo>)
    requires
        caller < old(tasks)@.len(),
        table_wf(old(tasks)@),
        old(tasks)@[caller as int].state != TaskState::Healthy(SchedState::InSend(caller)),
    ensures
        table_wf(final(tasks)@),
        recv_post(old(tasks)@, caller, final(tasks)@, r),
{
    // Atomically adopt the new notification mask and look for fired bits.
    let notmask = tasks[caller].save.recv_notification_mask;
    let t = task_mut(tasks, caller);
    let fired = t.update_mask(notmask);
    if let Some(firing) = fired {
        // Pending bits fire: consume them and synthesize a message from the
        // kernel; the caller resumes at once.
        let t = task_mut(tasks, caller);
        t.set_recv_result(TaskId::kernel(), firing, 0, 0, 0);
        let t = task_mut(tasks, caller);
        t.acknowledge_notifications();
        proof {
            let me = old(tasks)@[caller as int];
            assert(tasks@ =~= old(tasks)@.update(caller as int, Task {
                notification_mask: notmask,
                notifications: me.notifications & !notmask,
                save: recv_stamped(
                    me.save,
                    TaskId { index: KERNEL_INDEX, generation: 0 },
                    me.notifications & notmask,
                    0,
                    0,
                    0,
                ),
                ..me
            }));
            crate::task::lemma_table_wf_preserved(old(tasks)@, tasks@);
        }
        return Ok(NextTask::Same);
    }

    proof {
        assert forall|j: int| 0 <= j < tasks@.len() implies (#[trigger] tasks@[j]).wf() by {
            assert(old(tasks)@[j].wf());
        }
    }
    let ghost t_m = tasks@;
    let len = tasks.len();
    let mut last = caller;
    let ghost mut untouched: bool = true;
    loop
        invariant
            tasks@.len() == t_m.len(),
            t_m.len() == old(tasks)@.len(),
            notmask == old(tasks)@[caller as int].save.recv_notification_mask,
            old(tasks)@[caller as int].notifications & notmask == 0,
            t_m == old(tasks)@.update(caller as int, Task {
                notification_mask: notmask,
                ..old(tasks)@[caller as int]
            }),
            table_wf(old(tasks)@),
            caller < t_m.len(),
            t_m.len() <= 0xffff,
            last < t_m.len(),
            len == t_m.len(),
            table_wf(tasks@),
            table_wf(t_m),
            t_m[caller as int].state != TaskState::Healthy(SchedState::InSend(caller)),
            tasks@[caller as int] == t_m[caller as int],
            untouched ==> tasks@ == t_m && last == caller,
            !untouched ==> forall|s: int|
                crate::task::scan_picks(t_m, caller as int, ScanGoal::SendingTo(caller), s)
                    ==> !deliver_ok(t_m[s], t_m[caller as int]),
            forall|j: int|
                0 <= j < t_m.len() && j != caller
                    && t_m[j].state != TaskState::Healthy(SchedState::InSend(caller))
                    ==> tasks@[j] == t_m[j],
            forall|j: int|
                0 <= j < t_m.len() && j != caller
                    && t_m[j].state == TaskState::Healthy(SchedState::InSend(caller))
                    ==> tasks@[j] == t_m[j]
                        || (deliver_fault(t_m[j], t_m[caller as int]).src matches Some(f)
                            && tasks@[j] == (Task { state: TaskState::Faulted(f), ..t_m[j] })),
        ensures
            forall|j: int| 0 <= j < tasks@.len()
                ==> !crate::task::goal_matches(ScanGoal::SendingTo(caller), #[trigger] tasks@[j]),
            tasks@[caller as int] == t_m[caller as int],
        decreases num_sending(tasks@, caller),
    {
        let found = priority_scan(last, tasks, ScanGoal::SendingTo(caller));
        let sender = match found {
            None => {
                break;
            }
            Some(s) => s,
        };
        let ghost pre = tasks@;
        proof {
            // The pick still carries its original value: a sender faulted in
            // an earlier round no longer matches the scan.
            assert(pre[sender as int] == t_m[sender as int]);
            assert(sender != caller);
            if untouched {
                assert forall|s2: int|
                    crate::task::scan_picks(t_m, caller as int, ScanGoal::SendingTo(caller), s2)
                    implies s2 == sender as int
                by {
                    lemma_scan_picks_unique(t_m, caller as int, ScanGoal::SendingTo(caller), s2, sender as int);
                }
            }
        }
        match deliver(tasks, sender, caller) {
            Ok(_) => {
                // Delivered: the sender now awaits our reply and the message
                // is already in the caller's hands.
                proof {
                    assert(deliver_ok(t_m[sender as int], t_m[caller as int]));
                    assert(post_rendezvous(pre, sender as int, caller as int, tasks@));
                    assert(stamped_from(
                        t_m[sender as int],
                        t_m[caller as int],
                        sender,
                        tasks@[caller as int],
                    ));
                    assert(recv_took_from(t_m, caller, sender as int, tasks@));
                    assert forall|j: int|
                        0 <= j < t_m.len() && j != caller
                            && (#[trigger] t_m[j]).state != TaskState::Healthy(SchedState::InSend(caller))
                        implies tasks@[j] == t_m[j]
                    by {
                        assert(j != sender as int);
                        assert(pre[j] == t_m[j]);
                    }
                    assert forall|j: int|
                        0 <= j < t_m.len() && j != caller
                            && (#[trigger] t_m[j]).state == TaskState::Healthy(SchedState::InSend(caller))
                        implies tasks@[j] == t_m[j]
                            || (deliver_fault(t_m[j], t_m[caller as int]).src matches Some(f)
                                && tasks@[j] == (Task { state: TaskState::Faulted(f), ..t_m[j] }))
                            || (deliver_ok(t_m[j], t_m[caller as int]) && tasks@[j] == (Task {
                                state: TaskState::Healthy(SchedState::InReply(caller)),
                                ..t_m[j]
                            }))
                    by {
                        if j != sender as int {
                            assert(tasks@[j] == pre[j]);
                        } else {
                            assert(deliver_ok(t_m[j], t_m[caller as int]));
                            assert(tasks@[j] == (Task {
                                state: TaskState::Healthy(SchedState::InReply(caller)),
                                ..pre[j]
                            }));
                        }
                    }
                    assert(recv_frame(t_m, caller, tasks@));
                    if untouched {
                        assert(pre == t_m);
                    }
                    assert forall|j: int| 0 <= j < tasks@.len()
                        implies (#[trigger] tasks@[j]).mem_base == old(tasks)@[j].mem_base
                            && tasks@[j].mem@.len() == old(tasks)@[j].mem@.len()
                    by {
                        assert(pre[j].mem_base == t_m[j].mem_base
                            && pre[j].mem@.len() == t_m[j].mem@.len());
                        assert(t_m[j].mem_base == old(tasks)@[j].mem_base
                            && t_m[j].mem@.len() == old(tasks)@[j].mem@.len());
                        if j != caller as int && j != sender as int {
                            assert(tasks@[j] == pre[j]);
                        }
                    }
                    crate::task::lemma_table_wf_preserved(old(tasks)@, tasks@);
                }
                return Ok(NextTask::Same);
            }
            Err(interact) => {
                // The delivery failed. Stop the sender if the fault was its
                // own; pass a caller-side fault up to the dispatcher.
                proof {
                    assert(interact == deliver_fault(t_m[sender as int], t_m[caller as int]));
                    assert(!deliver_ok(t_m[sender as int], t_m[caller as int]));
                }
                let t = task_mut(tasks, sender);
                let applied = interact.apply_to_src(t);
                proof {
                    untouched = false;
                }
                match applied {
                    Err(f) => {
                        proof {
                            assert(tasks@[caller as int] == t_m[caller as int]);
                            assert(deliver_fault(t_m[sender as int], t_m[caller as int]).dst
                                == Some(f));
                            assert(recv_err_from(t_m, caller, sender as int, f));
                            assert forall|j: int|
                                0 <= j < t_m.len() && j != caller
                                    && (#[trigger] t_m[j]).state != TaskState::Healthy(SchedState::InSend(caller))
                                implies tasks@[j] == t_m[j]
                            by {
                                assert(j != sender as int);
                                assert(pre[j] == t_m[j]);
                            }
                            assert forall|j: int|
                                0 <= j < t_m.len() && j != caller
                                    && (#[trigger] t_m[j]).state == TaskState::Healthy(SchedState::InSend(caller))
                                implies tasks@[j] == t_m[j]
                                    || (deliver_fault(t_m[j], t_m[caller as int]).src matches Some(ff)
                                        && tasks@[j] == (Task { state: TaskState::Faulted(ff), ..t_m[j] }))
                                    || (deliver_ok(t_m[j], t_m[caller as int]) && tasks@[j] == (Task {
                                        state: TaskState::Healthy(SchedState::InReply(caller)),
                                        ..t_m[j]
                                    }))
                            by {
                                if j != sender as int {
                                    assert(tasks@[j] == pre[j]);
                                } else {
                                    assert(tasks@[j] == faulted_if(pre[j], interact.src));
                                }
                            }
                            assert(recv_frame(t_m, caller, tasks@));
                    assert forall|j: int| 0 <= j < tasks@.len()
                        implies (#[trigger] tasks@[j]).mem_base == old(tasks)@[j].mem_base
                            && tasks@[j].mem@.len() == old(tasks)@[j].mem@.len()
                    by {
                        assert(pre[j].mem_base == t_m[j].mem_base
                            && pre[j].mem@.len() == t_m[j].mem@.len());
                        assert(t_m[j].mem_base == old(tasks)@[j].mem_base
                            && t_m[j].mem@.len() == old(tasks)@[j].mem@.len());
                        if j != caller as int && j != sender as int {
                            assert(tasks@[j] == pre[j]);
                        }
                    }
                            crate::task::lemma_table_wf_preserved(old(tasks)@, tasks@);
                        }
                        return Err(f);
                    }
                    Ok(_) => {
                        proof {
                            assert(interact.dst is None);
                            assert(interact.src is Some);
                            assert(tasks@[sender as int] == (Task {
                                state: TaskState::Faulted(interact.src->0),
                                ..pre[sender as int]
                            }));
                            lemma_num_sending_update(
                                pre,
                                caller,
                                sender as int,
                                tasks@[sender as int],
                            );
                            assert forall|j: int| 0 <= j < tasks@.len()
                                implies (#[trigger] tasks@[j]).wf()
                            by {
                                assert(pre[j].wf());
                            }
                        }
                        last = sender;
                    }
                }
            }
        }
    }

    // No notification, nobody sending: block in an open receive; some other
    // task should run.
    let ghost scanned = tasks@;
    let t = task_mut(tasks, caller);
    t.state = TaskState::Healthy(SchedState::InRecv(None));
    proof {
        let me = old(tasks)@[caller as int];
        let blocked = Task {
            notification_mask: notmask,
            state: TaskState::Healthy(SchedState::InRecv(None::<usize>)),
            ..me
        };
        assert(tasks@[caller as int] == blocked);
        if forall|j: int|
            0 <= j < old(tasks)@.len()
                ==> (#[trigger] old(tasks)@[j]).state != TaskState::Healthy(SchedState::InSend(caller)) {
            assert forall|j: int| 0 <= j < t_m.len() && j != caller
                implies scanned[j] == t_m[j]
            by {
                assert(old(tasks)@[j].state != TaskState::Healthy(SchedState::InSend(caller)));
            }
            assert(tasks@ =~= old(tasks)@.update(caller as int, blocked));
        }
        assert forall|j: int| 0 <= j < tasks@.len()
            implies (#[trigger] tasks@[j]).mem_base == old(tasks)@[j].mem_base
                && tasks@[j].mem@.len() == old(tasks)@[j].mem@.len()
        by {
            assert(scanned[j].mem_base == t_m[j].mem_base
                && scanned[j].mem@.len() == t_m[j].mem@.len());
        }
        crate::task::lemma_table_wf_preserved(old(tasks)@, tasks@);
    }
    Ok(NextTask::Other)
}

/// `t1` is `t0` after a successful REPLY from `caller` to slot `c`: the reply
/// payload, truncated to the target's registered response buffer, lands in
/// that buffer; the target gets the response code and copied length and
/// becomes runnable; nothing else — the replier in particular — changes.
pub open spec fn post_reply(t0: Seq<Task>, caller: int, c: int, t1: Seq<Task>) -> bool {
    let src = t0[caller];
    let dst = t0[c];
    let msg = src.save.reply_msg_slice();
    let buf = dst.save.send_resp_slice();
    let n = min32(msg.len, buf.len);
    &&& t1.len() == t0.len()
    &&& (forall|j: int| 0 <= j < t0.len() && j != c ==> t1[j] == t0[j])
    &&& t1[c] == (Task {
        state: TaskState::Healthy(SchedState::Runnable),
        save: SavedState { response_code: src.save.reply_code, response_length: n, ..dst.save },
        mem: t1[c].mem,
        ..dst
    })
    &&& t1[c].mem@ == write_view(
        dst.mem@,
        buf.base - dst.mem_base,
        slice_bytes(src, msg).take(n as int),
    )
    &&& t1[c].mem@.len() == dst.mem@.len()
}

/// The exact relation between the table and result of a REPLY by `caller`
/// and the table it started from.
pub open spec fn reply_post(t0: Seq<Task>, caller: usize, t1: Seq<Task>, r: Result<NextTask, FaultInfo>) -> bool {
    let id = t0[caller as int].save.reply_target;
    let c = id.index as int;
    &&& t1.len() == t0.len()
    &&& (r matches Ok(nt) ==> nt == NextTask::Same)
    &&& (!crate::task::id_resolves(t0, id) ==> {
        &&& r == Ok::<NextTask, FaultInfo>(NextTask::Same)
        &&& t1 == t0
    })
    &&& (crate::task::id_resolves(t0, id) ==> {
        let src = t0[caller as int];
        let dst = t0[c];
        &&& (dst.state != TaskState::Healthy(SchedState::InReply(caller)) ==> {
            &&& r == Ok::<NextTask, FaultInfo>(NextTask::Same)
            &&& t1 == t0
        })
        &&& (dst.state == TaskState::Healthy(SchedState::InReply(caller)) ==> {
            &&& (!src.save.reply_msg_ok() ==> {
                &&& r == Err::<NextTask, FaultInfo>(FaultInfo::SyscallUsage(UsageError::InvalidSlice))
                &&& t1 == t0
            })
            &&& (src.save.reply_msg_ok() && !dst.save.send_resp_ok() ==> {
                &&& r == Ok::<NextTask, FaultInfo>(NextTask::Same)
                &&& t1 == t0.update(c, Task {
                    state: TaskState::Faulted(FaultInfo::SyscallUsage(UsageError::InvalidSlice)),
                    ..dst
                })
            })
            &&& (src.save.reply_msg_ok() && dst.save.send_resp_ok() ==> {
                let f = copy_fault(src, src.save.reply_msg_slice(), dst, dst.save.send_resp_slice());
                &&& (crate::umem::copy_allowed(src, src.save.reply_msg_slice(), dst, dst.save.send_resp_slice()) ==> {
                    &&& r == Ok::<NextTask, FaultInfo>(NextTask::Same)
                    &&& post_reply(t0, caller as int, c, t1)
                })
                &&& (!crate::umem::copy_allowed(src, src.save.reply_msg_slice(), dst, dst.save.send_resp_slice()) ==> {
                    &&& t1 == t0.update(c, faulted_if(dst, f.dst))
                    &&& (f.src matches Some(ff) ==> r == Err::<NextTask, FaultInfo>(ff))
                    &&& (f.src is None ==> r == Ok::<NextTask, FaultInfo>(NextTask::Same))
                })
            })
        })
    })
}

/// The REPLY primitive.
///
/// A stale or impossible target identity, or a target no longer waiting in
/// reply to this caller (supervisory logic may have released it meanwhile),
/// is a benign no-op success: the original sender is gone and there is
/// nothing to do. A malformed reply payload is the *replier's* fault; a
/// corrupt response buffer is the *target's* fault and never stops the
/// replier. An oversized reply is truncated to the target's buffer, not
/// punished. A reply never asks to switch tasks: sends flow from less to
/// more important tasks, so the replier outranks the task it just unblocked.
pub fn reply(tasks: &mut Vec<Task>, caller: usize) -> (r: Result<NextTask, FaultInfo>)
    requires
        caller < old(tasks)@.len(),
        table_wf(old(tasks)@),
    ensures
        table_wf(final(tasks)@),
        reply_post(old(tasks)@, caller, final(tasks)@, r),
{
    let id = tasks[caller].save.reply_target;

    // Resolve the target, tolerating a dead or invalid identity: it is not
    // the replier's fault if the original sender restarted (or never
    // existed) before its reply arrived.
    let callee = match crate::task::check_task_id_against_table(tasks, id) {
        Err(_) => {
            return Ok(NextTask::Same);
        }
        Ok(x) => x,
    };

    let awaiting_us = match tasks[callee].state {
        TaskState::Healthy(SchedState::InReply(x)) => x == caller,
        _ => false,
    };
    if !awaiting_us {
        // The target is off doing something else (e.g. released by a
        // supervisory timeout). Nothing to release; success.
        return Ok(NextTask::Same);
    }

    // The replier's payload claim: garbage here is the replier's own fault.
    let src_save = tasks[caller].save;
    let src_slice = match USlice::from_raw(src_save.reply_message_base, src_save.reply_message_len) {
        Ok(s) => s,
        Err(_) => {
            return Err(FaultInfo::SyscallUsage(UsageError::InvalidSlice));
        }
    };
    let code = src_save.reply_code;

    // The target's registered response buffer: garbage there is the target's
    // fault and must not stop the replier.
    let dst_save = tasks[callee].save;
    let dest_slice = match USlice::from_raw(dst_save.send_response_base, dst_save.send_response_len) {
        Ok(s) => s,
        Err(e) => {
            let t = task_mut(tasks, callee);
            let _ = t.force_fault(FaultInfo::SyscallUsage(e));
            proof {
                crate::task::lemma_table_wf_preserved(old(tasks)@, tasks@);
            }
            return Ok(NextTask::Same);
        }
    };

    // Copy the payload, truncating to the smaller of the two regions.
    let amount = match safe_copy(tasks, caller, src_slice, callee, dest_slice) {
        Ok(n) => n,
        Err(interact) => {
            let t = task_mut(tasks, callee);
            let applied = interact.apply_to_dst(t);
            proof {
                crate::task::lemma_table_wf_preserved(old(tasks)@, tasks@);
            }
            match applied {
                Err(f) => {
                    return Err(f);
                }
                Ok(_) => {
                    return Ok(NextTask::Same);
                }
            }
        }
    };

    let t = task_mut(tasks, callee);
    t.set_response_and_length(code, amount);
    let t = task_mut(tasks, callee);
    t.state = TaskState::Healthy(SchedState::Runnable);
    proof {
        crate::task::lemma_table_wf_preserved(old(tasks)@, tasks@);
    }
    Ok(NextTask::Same)
}

/// The task value after a TIMER syscall at time `now`: a deadline already
/// reached fires at once (the bits are posted and the timer disarmed), a
/// future deadline (or none) simply replaces any pending timer.
pub open spec fn task_after_timer(t: Task, now: u64) -> Task {
    let n = t.save.timer_notification;
    if t.save.timer_armed && t.save.timer_deadline <= now {
        crate::task::task_after_post(
            Task { timer: crate::task::TimerState { deadline: None, to_post: n }, ..t },
            n,
        )
    } else {
        let deadline = if t.save.timer_armed {
            Some(t.save.timer_deadline)
        } else {
            None
        };
        Task { timer: crate::task::TimerState { deadline, to_post: n }, ..t }
    }
}

/// The TIMER syscall: arm, replace or disarm the calling task's single
/// pending timer. A deadline at or before `now` fires within this very call —
/// the notification bits are posted immediately, with no later tick needed.
pub fn timer(task: &mut Task, now: u64) -> (r: NextTask)
    ensures
        r == NextTask::Same,
        *final(task) == task_after_timer(*old(task), now),
{
    let n = task.save.timer_notification;
    if task.save.timer_armed && task.save.timer_deadline <= now {
        // Already expired: fire now instead of deferring.
        task.set_timer(None, n);
        let _ = task.post(n);
        return NextTask::Same;
    }
    let deadline = if task.save.timer_armed {
        Some(task.save.timer_deadline)
    } else {
        None
    };
    task.set_timer(deadline, n);
    NextTask::Same
}

} // verus!
