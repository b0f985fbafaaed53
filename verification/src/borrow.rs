//! The lease/borrow subsystem: while a lender is blocked waiting for a reply
//! from a borrower, the borrower may read or write sub-regions of the
//! lender's memory that the lender's lease table grants, or ask how large
//! such a grant is.

use vstd::prelude::*;

use crate::err::{faulted_if, UserError};
use crate::task::{
    table_wf, task_mut, FaultInfo, FaultSource, NextTask, SavedState, SchedState, Task, TaskState,
    UsageError,
};
use crate::umem::{
    adjusted_lease, copy_allowed, copy_fault, lease_at, min32, read_lease, safe_copy, slice_bytes,
    write_view, ULease, USlice, LEASE_READ, LEASE_WRITE,
};
use crate::{DEAD, DEFECT};

verus! {

/// The alleged lender really is lending to this caller: it delivered a
/// message to the caller and now waits for the caller's reply. Leases exist
/// only for the duration of that pending reply.
pub open spec fn lending_to(lender_t: Task, caller: usize) -> bool {
    lender_t.state == TaskState::Healthy(SchedState::InReply(caller))
}

/// Outcome of resolving one lease of a lender for a borrower.
pub enum LeaseCheck {
    /// The alleged lender is not lending at all: a recoverable "defecting
    /// lender" answer for the borrower, who did nothing wrong.
    Defect,
    /// The lender's lease-table claim is malformed; the lender is stopped,
    /// the borrower sees a defecting lender.
    DefectTableFault,
    /// The lender cannot actually read its claimed lease table; likewise.
    DefectTableAccess,
    /// The borrower picked a lease number outside the table: the borrower's
    /// own fault, it was told the lease count at receive time.
    BadNumber,
    /// The borrower's offset exceeds the lease's length: also its own fault.
    BadOffset,
    /// The lease, already advanced by the borrower's offset.
    Good(ULease),
}

/// Resolve lease number and offset against the lender, exactly as the
/// borrow path checks them, in order.
pub open spec fn lease_check(caller_t: Task, lender_t: Task, caller: usize, offset: u32) -> LeaseCheck {
    let num = caller_t.save.borrow_lease_number;
    if !lending_to(lender_t, caller) {
        LeaseCheck::Defect
    } else if !lender_t.save.lease_table_ok() {
        LeaseCheck::DefectTableFault
    } else if !lender_t.spec_can_read(lender_t.save.lease_table_slice()) {
        LeaseCheck::DefectTableAccess
    } else if num >= lender_t.save.send_lease_count {
        LeaseCheck::BadNumber
    } else if offset > lease_at(lender_t, num as int).length {
        LeaseCheck::BadOffset
    } else {
        LeaseCheck::Good(adjusted_lease(lease_at(lender_t, num as int), offset))
    }
}

/// What the borrower gets back for each check outcome.
pub open spec fn lease_check_result(chk: LeaseCheck) -> Result<ULease, UserError> {
    match chk {
        LeaseCheck::Defect => Err(UserError::Recoverable(DEFECT)),
        LeaseCheck::DefectTableFault => Err(UserError::Recoverable(DEFECT)),
        LeaseCheck::DefectTableAccess => Err(UserError::Recoverable(DEFECT)),
        LeaseCheck::BadNumber => Err(UserError::Unrecoverable(FaultInfo::SyscallUsage(
            UsageError::LeaseOutOfRange,
        ))),
        LeaseCheck::BadOffset => Err(UserError::Unrecoverable(FaultInfo::SyscallUsage(
            UsageError::OffsetOutOfRange,
        ))),
        LeaseCheck::Good(l) => Ok(l),
    }
}

/// What the check does to the table: only a lender with a corrupt or
/// unreadable lease table is stopped; every other outcome changes nothing.
/// In particular a bad lease number or offset never touches the lender.
pub open spec fn lease_check_table(t0: Seq<Task>, lender: int, chk: LeaseCheck) -> Seq<Task> {
    match chk {
        LeaseCheck::DefectTableFault => t0.update(lender, Task {
            state: TaskState::Faulted(FaultInfo::SyscallUsage(UsageError::InvalidSlice)),
            ..t0[lender]
        }),
        LeaseCheck::DefectTableAccess => t0.update(lender, Task {
            state: TaskState::Faulted(FaultInfo::MemoryAccess {
                address: Some(t0[lender].save.send_lease_base),
                source: FaultSource::Kernel,
            }),
            ..t0[lender]
        }),
        _ => t0,
    }
}

/// Resolve the caller's chosen lease number against `lender`'s lease table
/// and advance it by `offset`. The lender must currently be in reply to the
/// caller; a lender that is not is "defecting", which the caller merely
/// observes as a recoverable error. A corrupt or unreadable lease table
/// stops the lender. A lease number or offset out of range is the caller's
/// own fault — it alone chooses them.
pub fn borrow_lease(tasks: &mut Vec<Task>, caller: usize, lender: usize, offset: u32) -> (r: Result<ULease, UserError>)
    requires
        caller < old(tasks)@.len(),
        lender < old(tasks)@.len(),
        table_wf(old(tasks)@),
    ensures
        final(tasks)@.len() == old(tasks)@.len(),
        table_wf(final(tasks)@),
        ({
            let chk = lease_check(
                old(tasks)@[caller as int],
                old(tasks)@[lender as int],
                caller,
                offset,
            );
            &&& r == lease_check_result(chk)
            &&& final(tasks)@ == lease_check_table(old(tasks)@, lender as int, chk)
        }),
{
    let num = tasks[caller].save.borrow_lease_number;

    // The lease exists only while the lender awaits our reply.
    let lending = match tasks[lender].state {
        TaskState::Healthy(SchedState::InReply(x)) => x == caller,
        _ => false,
    };
    if !lending {
        return Err(UserError::Recoverable(DEFECT));
    }

    let lsave = tasks[lender].save;
    if !((lsave.send_lease_base as u64) + 12u64 * (lsave.send_lease_count as u64)
        <= 0x1_0000_0000u64) {
        // A corrupt lease table would normally be caught on entry to SEND,
        // but the lender's state may have been rewritten since.
        let t = task_mut(tasks, lender);
        let _ = t.force_fault(FaultInfo::SyscallUsage(UsageError::InvalidSlice));
        proof {
            crate::task::lemma_table_wf_preserved(old(tasks)@, tasks@);
        }
        return Err(UserError::Recoverable(DEFECT));
    }
    proof {
        assert(lsave.send_lease_count * 12 <= 0xffff_fffc);
    }
    let table = USlice {
        base: lsave.send_lease_base,
        len: ((lsave.send_lease_count as u64) * 12u64) as u32,
    };
    proof {
        assert(table == lsave.lease_table_slice());
    }

    // Can the lender itself read the table, or is it being sneaky?
    if !tasks[lender].can_read(&table) {
        let t = task_mut(tasks, lender);
        let _ = t.force_fault(FaultInfo::MemoryAccess {
            address: Some(table.base),
            source: FaultSource::Kernel,
        });
        proof {
            crate::task::lemma_table_wf_preserved(old(tasks)@, tasks@);
        }
        return Err(UserError::Recoverable(DEFECT));
    }

    // The borrower was told the lease count on its successful receive and
    // must respect it.
    if num >= lsave.send_lease_count {
        return Err(UserError::Unrecoverable(FaultInfo::SyscallUsage(UsageError::LeaseOutOfRange)));
    }

    let lease = read_lease(&tasks[lender], num);
    if offset <= lease.length {
        Ok(ULease {
            attributes: lease.attributes,
            base_address: lease.base_address.wrapping_add(offset),
            length: lease.length - offset,
        })
    } else {
        Err(UserError::Unrecoverable(FaultInfo::SyscallUsage(UsageError::OffsetOutOfRange)))
    }
}

/// The exact relation between the table and result of a BORROW-READ by
/// `caller` and the table it started from.
pub open spec fn borrow_read_post(t0: Seq<Task>, caller: usize, t1: Seq<Task>, r: Result<NextTask, UserError>) -> bool {
            let me = t0[caller as int];
            let id = me.save.borrow_lender;
            let c = id.index as int;
            let buf = me.save.borrow_buf_slice();
            &&& t1.len() == t0.len()
            &&& (!me.save.borrow_buf_ok() ==> {
                &&& r == Err::<NextTask, UserError>(UserError::Unrecoverable(
                    FaultInfo::SyscallUsage(UsageError::InvalidSlice)))
                &&& t1 == t0
            })
            &&& (me.save.borrow_buf_ok() && !crate::task::id_resolves(t0, id) ==> {
                &&& r == Err::<NextTask, UserError>(UserError::Recoverable(DEAD))
                &&& t1 == t0
            })
            &&& (me.save.borrow_buf_ok() && crate::task::id_resolves(t0, id) ==> {
                let chk = lease_check(me, t0[c], caller, me.save.borrow_offset);
                &&& (lease_check_result(chk) matches Err(e) ==> {
                    &&& r == Err::<NextTask, UserError>(e)
                    &&& t1 == lease_check_table(t0, c, chk)
                })
                &&& (chk matches LeaseCheck::Good(lease) ==> {
                    let area = USlice { base: lease.base_address, len: lease.length };
                    &&& (lease.attributes & LEASE_READ == 0 ==> {
                        &&& r == Err::<NextTask, UserError>(UserError::Recoverable(DEFECT))
                        &&& t1 == t0
                    })
                    &&& (lease.attributes & LEASE_READ != 0 ==> {
                        &&& (copy_allowed(t0[c], area, me, buf) ==> {
                            let n = min32(lease.length, buf.len);
                            &&& r == Ok::<NextTask, UserError>(NextTask::Same)
                            &&& (forall|j: int| 0 <= j < t0.len() && j != caller ==> t1[j] == t0[j])
                            &&& t1[caller as int] == (Task {
                                save: SavedState {
                                    response_code: 0,
                                    response_length: n,
                                    ..me.save
                                },
                                mem: t1[caller as int].mem,
                                ..me
                            })
                            &&& t1[caller as int].mem@ == write_view(
                                me.mem@,
                                buf.base - me.mem_base,
                                slice_bytes(t0[c], area).take(n as int),
                            )
                        })
                        &&& (!copy_allowed(t0[c], area, me, buf) ==> {
                            let cf = copy_fault(t0[c], area, me, buf);
                            &&& t1 == t0.update(c, faulted_if(t0[c], cf.src))
                            &&& (cf.dst matches Some(f) ==>
                                r == Err::<NextTask, UserError>(UserError::Unrecoverable(f)))
                            &&& (cf.dst is None ==>
                                r == Err::<NextTask, UserError>(UserError::Recoverable(DEFECT)))
                        })
                    })
                })
            })
}

/// The BORROW-READ primitive: copy out of a lease of the lender into the
/// caller's buffer.
///
/// The lease must grant read access; one that does not — like a lender that
/// is not lending at all, or a dead or invalid lender identity — yields the
/// recoverable "defecting lender" or dead-peer answer and copies nothing. A
/// lease region the lender may not actually touch stops the lender, again a
/// defect from the caller's point of view; only the caller's own malformed
/// or unreachable buffer is the caller's fault.
pub fn borrow_read(tasks: &mut Vec<Task>, caller: usize) -> (r: Result<NextTask, UserError>)
    requires
        caller < old(tasks)@.len(),
        table_wf(old(tasks)@),
    ensures
        table_wf(final(tasks)@),
        borrow_read_post(old(tasks)@, caller, final(tasks)@, r),
{
    let args = tasks[caller].save;
    let buffer = match USlice::from_raw(args.borrow_buffer_base, args.borrow_buffer_len) {
        Ok(b) => b,
        Err(e) => {
            return Err(UserError::Unrecoverable(FaultInfo::SyscallUsage(e)));
        }
    };
    let lender = match crate::task::check_task_id_against_table(tasks, args.borrow_lender) {
        Ok(i) => i,
        Err(e) => {
            return Err(e);
        }
    };
    let lease = match borrow_lease(tasks, caller, lender, args.borrow_offset) {
        Ok(l) => l,
        Err(e) => {
            return Err(e);
        }
    };

    // Does the lease grant reading at all?
    if lease.attributes & LEASE_READ == 0 {
        return Err(UserError::Recoverable(DEFECT));
    }

    // The copy itself re-checks that the lender may touch the leased area.
    let leased_area = lease.as_slice();
    match safe_copy(tasks, lender, leased_area, caller, buffer) {
        Ok(n) => {
            let t = task_mut(tasks, caller);
            t.set_response_and_length(0, n);
            proof {
                crate::task::lemma_table_wf_preserved(old(tasks)@, tasks@);
            }
            Ok(NextTask::Same)
        }
        Err(interact) => {
            // A fault in the leased area is the lender's; apply it and report
            // a defecting lender. A fault in the caller's own buffer goes up.
            let t = task_mut(tasks, lender);
            let applied = interact.apply_to_src(t);
            proof {
                crate::task::lemma_table_wf_preserved(old(tasks)@, tasks@);
            }
            match applied {
                Err(f) => Err(UserError::Unrecoverable(f)),
                Ok(_) => Err(UserError::Recoverable(DEFECT)),
            }
        }
    }
}

/// The exact relation between the table and result of a BORROW-WRITE by
/// `caller` and the table it started from.
pub open spec fn borrow_write_post(t0: Seq<Task>, caller: usize, t1: Seq<Task>, r: Result<NextTask, UserError>) -> bool {
            let me = t0[caller as int];
            let id = me.save.borrow_lender;
            let c = id.index as int;
            let buf = me.save.borrow_buf_slice();
            &&& t1.len() == t0.len()
            &&& (!me.save.borrow_buf_ok() ==> {
                &&& r == Err::<NextTask, UserError>(UserError::Unrecoverable(
                    FaultInfo::SyscallUsage(UsageError::InvalidSlice)))
                &&& t1 == t0
            })
            &&& (me.save.borrow_buf_ok() && !crate::task::id_resolves(t0, id) ==> {
                &&& r == Err::<NextTask, UserError>(UserError::Recoverable(DEAD))
                &&& t1 == t0
            })
            &&& (me.save.borrow_buf_ok() && crate::task::id_resolves(t0, id) ==> {
                let chk = lease_check(me, t0[c], caller, me.save.borrow_offset);
                &&& (lease_check_result(chk) matches Err(e) ==> {
                    &&& r == Err::<NextTask, UserError>(e)
                    &&& t1 == lease_check_table(t0, c, chk)
                })
                &&& (chk matches LeaseCheck::Good(lease) ==> {
                    let area = USlice { base: lease.base_address, len: lease.length };
                    &&& (lease.attributes & LEASE_WRITE == 0 ==> {
                        &&& r == Err::<NextTask, UserError>(UserError::Recoverable(DEFECT))
                        &&& t1 == t0
                    })
                    &&& (lease.attributes & LEASE_WRITE != 0 ==> {
                        &&& (copy_allowed(me, buf, t0[c], area) ==> {
                            let n = min32(buf.len, lease.length);
                            &&& r == Ok::<NextTask, UserError>(NextTask::Same)
                            &&& (forall|j: int|
                                0 <= j < t0.len() && j != caller && j != c ==> t1[j] == t0[j])
                            &&& (c != caller as int ==> {
                                &&& t1[c] == (Task { mem: t1[c].mem, ..t0[c] })
                                &&& t1[c].mem@ == write_view(
                                    t0[c].mem@,
                                    area.base - t0[c].mem_base,
                                    slice_bytes(me, buf).take(n as int),
                                )
                                &&& t1[caller as int] == (Task {
                                    save: SavedState {
                                        response_code: 0,
                                        response_length: n,
                                        ..me.save
                                    },
                                    ..me
                                })
                            })
                            // A task that is somehow recorded as replying to
                            // itself lends to itself: the bytes move within
                            // its own region, then its response is stamped.
                            &&& (c == caller as int ==> {
                                &&& t1[c] == (Task {
                                    save: SavedState {
                                        response_code: 0,
                                        response_length: n,
                                        ..me.save
                                    },
                                    mem: t1[c].mem,
                                    ..me
                                })
                                &&& t1[c].mem@ == write_view(
                                    me.mem@,
                                    area.base - me.mem_base,
                                    slice_bytes(me, buf).take(n as int),
                                )
                            })
                        })
                        &&& (!copy_allowed(me, buf, t0[c], area) ==> {
                            let cf = copy_fault(me, buf, t0[c], area);
                            &&& t1 == t0.update(c, faulted_if(t0[c], cf.dst))
                            &&& (cf.src matches Some(f) ==>
                                r == Err::<NextTask, UserError>(UserError::Unrecoverable(f)))
                            &&& (cf.src is None ==>
                                r == Err::<NextTask, UserError>(UserError::Recoverable(DEFECT)))
                        })
                    })
                })
            })
}

/// The BORROW-WRITE primitive: copy the caller's buffer into a lease of the
/// lender. The mirror image of BORROW-READ, requiring write access on the
/// lease; the fault assignment swaps sides with the copy direction.
pub fn borrow_write(tasks: &mut Vec<Task>, caller: usize) -> (r: Result<NextTask, UserError>)
    requires
        caller < old(tasks)@.len(),
        table_wf(old(tasks)@),
    ensures
        table_wf(final(tasks)@),
        borrow_write_post(old(tasks)@, caller, final(tasks)@, r),
{
    let args = tasks[caller].save;
    let buffer = match USlice::from_raw(args.borrow_buffer_base, args.borrow_buffer_len) {
        Ok(b) => b,
        Err(e) => {
            return Err(UserError::Unrecoverable(FaultInfo::SyscallUsage(e)));
        }
    };
    let lender = match crate::task::check_task_id_against_table(tasks, args.borrow_lender) {
        Ok(i) => i,
        Err(e) => {
            return Err(e);
        }
    };
    let lease = match borrow_lease(tasks, caller, lender, args.borrow_offset) {
        Ok(l) => l,
        Err(e) => {
            return Err(e);
        }
    };

    // Does the lease grant writing at all?
    if lease.attributes & LEASE_WRITE == 0 {
        return Err(UserError::Recoverable(DEFECT));
    }

    let leased_area = lease.as_slice();
    match safe_copy(tasks, caller, buffer, lender, leased_area) {
        Ok(n) => {
            let t = task_mut(tasks, caller);
            t.set_response_and_length(0, n);
            proof {
                crate::task::lemma_table_wf_preserved(old(tasks)@, tasks@);
            }
            Ok(NextTask::Same)
        }
        Err(interact) => {
            // A fault in the leased area is the lender's; apply it and report
            // a defecting lender. A fault in the caller's own buffer goes up.
            let t = task_mut(tasks, lender);
            let applied = interact.apply_to_dst(t);
            proof {
                crate::task::lemma_table_wf_preserved(old(tasks)@, tasks@);
            }
            match applied {
                Err(f) => Err(UserError::Unrecoverable(f)),
                Ok(_) => Err(UserError::Recoverable(DEFECT)),
            }
        }
    }
}

/// The exact relation between the table and result of a BORROW-INFO by
/// `caller` and the table it started from.
pub open spec fn borrow_info_post(t0: Seq<Task>, caller: usize, t1: Seq<Task>, r: Result<NextTask, UserError>) -> bool {
            let id = t0[caller as int].save.borrow_lender;
            let c = id.index as int;
            &&& t1.len() == t0.len()
            &&& (!crate::task::id_resolves(t0, id) ==> {
                &&& r == Err::<NextTask, UserError>(UserError::Recoverable(DEAD))
                &&& t1 == t0
            })
            &&& (crate::task::id_resolves(t0, id) ==> {
                let chk = lease_check(t0[caller as int], t0[c], caller, 0);
                &&& (lease_check_result(chk) matches Err(e) ==> {
                    &&& r == Err::<NextTask, UserError>(e)
                    &&& t1 == lease_check_table(t0, c, chk)
                })
                &&& (chk matches LeaseCheck::Good(lease) ==> {
                    &&& r == Ok::<NextTask, UserError>(NextTask::Same)
                    &&& t1 == t0.update(caller as int, Task {
                        save: SavedState {
                            response_code: 0,
                            response_length: lease.length,
                            response_attributes: lease.attributes,
                            ..t0[caller as int].save
                        },
                        ..t0[caller as int]
                    })
                })
            })
}

/// The BORROW-INFO primitive: report a lease's raw attribute bits and
/// length, so a borrower can size its buffer before reading or writing. No
/// bytes move and no offset applies.
pub fn borrow_info(tasks: &mut Vec<Task>, caller: usize) -> (r: Result<NextTask, UserError>)
    requires
        caller < old(tasks)@.len(),
        table_wf(old(tasks)@),
    ensures
        table_wf(final(tasks)@),
        borrow_info_post(old(tasks)@, caller, final(tasks)@, r),
{
    let id = tasks[caller].save.borrow_lender;
    let lender = match crate::task::check_task_id_against_table(tasks, id) {
        Ok(i) => i,
        Err(e) => {
            return Err(e);
        }
    };
    let lease = match borrow_lease(tasks, caller, lender, 0) {
        Ok(l) => l,
        Err(e) => {
            return Err(e);
        }
    };
    let t = task_mut(tasks, caller);
    t.set_borrow_info(lease.attributes, lease.length);
    proof {
        crate::task::lemma_table_wf_preserved(old(tasks)@, tasks@);
    }
    Ok(NextTask::Same)
}

} // verus!
