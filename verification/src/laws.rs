//! Cross-cutting guarantees of the IPC engine, stated and proved once over
//! the spec-level outcomes that the syscall contracts share.

use vstd::prelude::*;

use crate::dispatch::{with_error_response, with_fault};
use crate::ipc::{delivered_len, post_rendezvous};
use crate::task::{FaultInfo, SchedState, Task, TaskId, TaskState};
use crate::DEAD;

verus! {

/// Rendezvous symmetry: a delivery from slot `s` to slot `r` leaves the pair
/// in one and the same protocol state — sender awaiting the reply, receiver
/// runnable with the stamped message in hand and everyone else untouched —
/// no matter which of the two parties' syscalls completed the rendezvous.
/// Both `send` (callee already receiving) and `recv` (sender already
/// sending) promise `post_rendezvous` of the same table, so any two tables
/// they can produce agree.
pub proof fn lemma_rendezvous_symmetry(t0: Seq<Task>, s: int, r: int, t_a: Seq<Task>, t_b: Seq<Task>)
    requires
        t0.len() <= 0xffff,
        0 <= s < t0.len(),
        0 <= r < t0.len(),
        s != r,
        post_rendezvous(t0, s, r, t_a),
        post_rendezvous(t0, s, r, t_b),
    ensures
        t_a[s] == t_b[s],
        t_a[r].save == t_b[r].save,
        t_a[r].state == t_b[r].state,
        t_a[r].mem@ == t_b[r].mem@,
        t_a[s].state == TaskState::Healthy(SchedState::InReply(r as usize)),
        t_a[r].state == TaskState::Healthy(SchedState::Runnable),
        t_a[r].save.recv_sender == (TaskId { index: s as u16, generation: t0[s].generation }),
        t_a[r].save.recv_operation == t0[s].save.send_operation as u32,
        t_a[r].save.recv_length == delivered_len(t0[s], t0[r]),
        forall|j: int| 0 <= j < t0.len() && j != s && j != r ==> t_a[j] == t_b[j],
{
}

/// Generation safety: naming a peer whose generation no longer matches ends
/// in the dead-peer response code written into the naming task's saved
/// state. Its scheduling state — in particular, whether it is healthy — is
/// exactly what it was, and nobody else is touched: a stale identity is
/// never a fault. This is the table shape the dispatcher's stale-target
/// clauses produce for SEND and the BORROW operations (REPLY changes nothing
/// at all there).
pub proof fn lemma_generation_safety(t0: Seq<Task>, current: int, t1: Seq<Task>)
    requires
        0 <= current < t0.len(),
        t1 == t0.update(current, with_error_response(t0[current], DEAD)),
    ensures
        t1[current].state == t0[current].state,
        t1[current].state matches TaskState::Faulted(_)
            ==> t0[current].state matches TaskState::Faulted(_),
        forall|j: int| 0 <= j < t0.len() && j != current ==> t1[j] == t0[j],
{
}

/// Lease bounds: a lease number beyond the lender's table, or an offset
/// beyond the resolved lease, stops the borrower alone — the lender's entry,
/// state and memory are exactly what they were. This is the table shape the
/// dispatcher's lease-bounds clauses produce.
pub proof fn lemma_lease_bounds(t0: Seq<Task>, current: int, lender: int, f: FaultInfo, t1: Seq<Task>)
    requires
        0 <= current < t0.len(),
        0 <= lender < t0.len(),
        lender != current,
        t1 == t0.update(current, with_fault(t0[current], f)),
    ensures
        t1[lender] == t0[lender],
        t1[current].state == TaskState::Faulted(f),
{
}

} // verus!
