//! Rendezvous, reply, notification, timer and dispatcher behavior on
//! concrete task tables.

use kern::dispatch::{safe_syscall_entry, IrqAction, IrqBinding};
use kern::ipc::{recv, reply, send, timer};
use kern::task::{
    select, FaultInfo, NextTask, SchedState, Task, TaskId, TaskState, UsageError, KERNEL_INDEX,
};
use kern::DEAD;

fn task_with(priority: u32, generation: u16, mem_base: u32, mem_size: u32) -> Task {
    Task::new(priority, generation, mem_base, mem_size)
}

fn no_irqs() -> Vec<IrqBinding> {
    Vec::new()
}

/// Three tasks; task 1 (priority 2) sends a 4-byte message to task 2
/// (priority 1), which is blocked in an open receive. The message is
/// delivered at once, task 1 waits for the reply, task 2 resumes knowing
/// sender and length, and the dispatcher proposes switching to task 2.
#[test]
fn send_delivers_to_open_receiver() {
    let mut tasks = vec![
        task_with(0, 0, 0x1000, 0x100),
        task_with(2, 5, 0x2000, 0x100),
        task_with(1, 9, 0x3000, 0x100),
    ];
    tasks[1].save.send_target = TaskId { index: 2, generation: 9 };
    tasks[1].save.send_operation = 3;
    tasks[1].save.send_message_base = 0x2000;
    tasks[1].save.send_message_len = 4;
    tasks[1].mem[0] = 0xde;
    tasks[1].mem[1] = 0xad;
    tasks[1].mem[2] = 0xbe;
    tasks[1].mem[3] = 0xef;
    tasks[2].state = TaskState::Healthy(SchedState::InRecv(None));
    tasks[2].save.recv_buffer_base = 0x3000;
    tasks[2].save.recv_buffer_len = 16;

    let (hint, action) = safe_syscall_entry(0, 1, &mut tasks, 0, &no_irqs());

    assert_eq!(hint, NextTask::Specific(2));
    assert_eq!(action, None);
    assert_eq!(tasks[1].state, TaskState::Healthy(SchedState::InReply(2)));
    assert_eq!(tasks[2].state, TaskState::Healthy(SchedState::Runnable));
    assert_eq!(tasks[2].save.recv_sender, TaskId { index: 1, generation: 5 });
    assert_eq!(tasks[2].save.recv_operation, 3);
    assert_eq!(tasks[2].save.recv_length, 4);
    assert_eq!(&tasks[2].mem[0..4], &[0xde, 0xad, 0xbe, 0xef]);
}

/// The converse rendezvous: task 2 is already blocked sending to task 1 when
/// task 1 executes an open receive. Task 1 resumes at once with the message,
/// task 2 moves to awaiting the reply — the same pair state as when the send
/// came second.
#[test]
fn recv_finds_waiting_sender() {
    let mut tasks = vec![
        task_with(1, 0, 0x1000, 0x100),
        task_with(2, 0, 0x2000, 0x100),
    ];
    tasks[1].state = TaskState::Healthy(SchedState::InSend(0));
    tasks[1].save.send_target = TaskId { index: 0, generation: 0 };
    tasks[1].save.send_operation = 7;
    tasks[1].save.send_message_base = 0x2010;
    tasks[1].save.send_message_len = 2;
    tasks[1].save.send_response_len = 32;
    tasks[1].save.send_lease_count = 1;
    tasks[1].mem[0x10] = 0x11;
    tasks[1].mem[0x11] = 0x22;
    tasks[0].save.recv_buffer_base = 0x1000;
    tasks[0].save.recv_buffer_len = 8;

    let r = recv(&mut tasks, 0);

    assert_eq!(r, Ok(NextTask::Same));
    assert_eq!(tasks[1].state, TaskState::Healthy(SchedState::InReply(0)));
    assert_eq!(tasks[0].save.recv_sender, TaskId { index: 1, generation: 0 });
    assert_eq!(tasks[0].save.recv_operation, 7);
    assert_eq!(tasks[0].save.recv_length, 2);
    assert_eq!(tasks[0].save.recv_response_capacity, 32);
    assert_eq!(tasks[0].save.recv_lease_count, 1);
    assert_eq!(&tasks[0].mem[0..2], &[0x11, 0x22]);
}

/// A receive scanning several waiting senders takes the most important one
/// (numerically lowest priority), not the lowest index.
#[test]
fn recv_prefers_higher_priority_sender() {
    let mut tasks = vec![
        task_with(3, 0, 0x1000, 0x100),
        task_with(9, 0, 0x2000, 0x100),
        task_with(1, 0, 0x3000, 0x100),
    ];
    for i in [1usize, 2] {
        tasks[i].state = TaskState::Healthy(SchedState::InSend(0));
        tasks[i].save.send_message_base = [0u32, 0x2000, 0x3000][i];
        tasks[i].save.send_message_len = 1;
        tasks[i].mem[0] = i as u8;
    }
    tasks[0].save.recv_buffer_base = 0x1000;
    tasks[0].save.recv_buffer_len = 4;

    let r = recv(&mut tasks, 0);

    assert_eq!(r, Ok(NextTask::Same));
    assert_eq!(tasks[0].save.recv_sender, TaskId { index: 2, generation: 0 });
    assert_eq!(tasks[2].state, TaskState::Healthy(SchedState::InReply(0)));
    assert_eq!(tasks[1].state, TaskState::Healthy(SchedState::InSend(0)));
}

/// A directed receive naming exactly this sender accepts its message like an
/// open one.
#[test]
fn send_delivers_to_directed_receiver() {
    let mut tasks = vec![
        task_with(1, 0, 0x1000, 0x100),
        task_with(2, 0, 0x2000, 0x100),
    ];
    tasks[1].save.send_target = TaskId { index: 0, generation: 0 };
    tasks[1].save.send_message_base = 0x2000;
    tasks[1].save.send_message_len = 1;
    tasks[0].state = TaskState::Healthy(SchedState::InRecv(Some(1)));
    tasks[0].save.recv_buffer_base = 0x1000;
    tasks[0].save.recv_buffer_len = 4;

    let r = send(&mut tasks, 1);

    assert_eq!(r, Ok(NextTask::Specific(0)));
    assert_eq!(tasks[1].state, TaskState::Healthy(SchedState::InReply(0)));
    assert_eq!(tasks[0].state, TaskState::Healthy(SchedState::Runnable));
}

/// A directed receive naming someone else does not accept this sender: the
/// sender blocks as if the receiver were busy.
#[test]
fn send_blocks_on_foreign_directed_receiver() {
    let mut tasks = vec![
        task_with(1, 0, 0x1000, 0x100),
        task_with(2, 0, 0x2000, 0x100),
        task_with(2, 0, 0x3000, 0x100),
    ];
    tasks[1].save.send_target = TaskId { index: 0, generation: 0 };
    tasks[0].state = TaskState::Healthy(SchedState::InRecv(Some(2)));

    let r = send(&mut tasks, 1);

    assert_eq!(r, Ok(NextTask::Other));
    assert_eq!(tasks[1].state, TaskState::Healthy(SchedState::InSend(0)));
    assert_eq!(tasks[0].state, TaskState::Healthy(SchedState::InRecv(Some(2))));
}

/// A receive that finds only a sender with a garbage message claim stops
/// that sender for its own fault and then blocks, instead of spinning on the
/// faulty candidate.
#[test]
fn recv_faults_bad_sender_then_blocks() {
    let mut tasks = vec![
        task_with(1, 0, 0x1000, 0x100),
        task_with(2, 0, 0x2000, 0x100),
    ];
    tasks[1].state = TaskState::Healthy(SchedState::InSend(0));
    tasks[1].save.send_message_base = 0xffff_ffff;
    tasks[1].save.send_message_len = 4;
    tasks[0].save.recv_buffer_base = 0x1000;
    tasks[0].save.recv_buffer_len = 8;

    let r = recv(&mut tasks, 0);

    assert_eq!(r, Ok(NextTask::Other));
    assert_eq!(
        tasks[1].state,
        TaskState::Faulted(FaultInfo::SyscallUsage(UsageError::InvalidSlice))
    );
    assert_eq!(tasks[0].state, TaskState::Healthy(SchedState::InRecv(None)));
}

/// A callee that is not receiving blocks the caller in `InSend`, and the
/// scheduler is asked to pick what runs next.
#[test]
fn send_blocks_when_callee_busy() {
    let mut tasks = vec![
        task_with(2, 0, 0x1000, 0x100),
        task_with(1, 0, 0x2000, 0x100),
    ];
    tasks[0].save.send_target = TaskId { index: 1, generation: 0 };

    let r = send(&mut tasks, 0);

    assert_eq!(r, Ok(NextTask::Other));
    assert_eq!(tasks[0].state, TaskState::Healthy(SchedState::InSend(1)));
    assert_eq!(tasks[1].state, TaskState::Healthy(SchedState::Runnable));
}

/// Naming a peer with a stale generation is an ordinary recoverable error:
/// through the dispatcher, the caller stays healthy and reads the dead-peer
/// code from its saved state.
#[test]
fn send_stale_generation_recoverable() {
    let mut tasks = vec![
        task_with(2, 0, 0x1000, 0x100),
        task_with(1, 4, 0x2000, 0x100),
    ];
    tasks[0].save.send_target = TaskId { index: 1, generation: 3 };
    tasks[1].state = TaskState::Healthy(SchedState::InRecv(None));

    let (hint, _) = safe_syscall_entry(0, 0, &mut tasks, 0, &no_irqs());

    assert_eq!(hint, NextTask::Same);
    assert_eq!(tasks[0].state, TaskState::Healthy(SchedState::Runnable));
    assert_eq!(tasks[0].save.response_code, DEAD);
    assert_eq!(tasks[1].state, TaskState::Healthy(SchedState::InRecv(None)));
}

/// A send naming a slot the table never had is the same recoverable
/// dead-recipient condition as a stale generation: the caller keeps running.
#[test]
fn send_to_impossible_index_recoverable() {
    let mut tasks = vec![task_with(2, 0, 0x1000, 0x100)];
    tasks[0].save.send_target = TaskId { index: 55, generation: 0 };

    let (hint, _) = safe_syscall_entry(0, 0, &mut tasks, 0, &no_irqs());

    assert_eq!(hint, NextTask::Same);
    assert_eq!(tasks[0].state, TaskState::Healthy(SchedState::Runnable));
    assert_eq!(tasks[0].save.response_code, DEAD);
}

/// A reply naming a slot the table never had is a no-op success, like any
/// other dead or invalid target.
#[test]
fn reply_to_impossible_index_is_noop() {
    let mut tasks = vec![task_with(2, 0, 0x1000, 0x100)];
    tasks[0].save.reply_target = TaskId { index: 9, generation: 0 };

    let r = reply(&mut tasks, 0);

    assert_eq!(r, Ok(NextTask::Same));
    assert_eq!(tasks[0].state, TaskState::Healthy(SchedState::Runnable));
}

/// A send offering a wrapping message slice faults the sender, and the
/// receiver keeps waiting untouched.
#[test]
fn send_with_wrapping_slice_faults_sender() {
    let mut tasks = vec![
        task_with(2, 0, 0x1000, 0x100),
        task_with(1, 0, 0x2000, 0x100),
    ];
    tasks[0].save.send_target = TaskId { index: 1, generation: 0 };
    tasks[0].save.send_message_base = 0xffff_ffff;
    tasks[0].save.send_message_len = 8;
    tasks[1].state = TaskState::Healthy(SchedState::InRecv(None));

    let (hint, _) = safe_syscall_entry(0, 0, &mut tasks, 0, &no_irqs());

    assert_eq!(hint, NextTask::Other);
    assert_eq!(
        tasks[0].state,
        TaskState::Faulted(FaultInfo::SyscallUsage(UsageError::InvalidSlice))
    );
    assert_eq!(tasks[1].state, TaskState::Healthy(SchedState::InRecv(None)));
}

/// A receiver whose claimed buffer lies outside its own memory is stopped
/// when a message is aimed at it; the surviving sender simply blocks as if
/// the receiver had been busy.
#[test]
fn send_to_receiver_with_bad_buffer_faults_receiver() {
    let mut tasks = vec![
        task_with(2, 0, 0x1000, 0x100),
        task_with(1, 0, 0x2000, 0x100),
    ];
    tasks[0].save.send_target = TaskId { index: 1, generation: 0 };
    tasks[0].save.send_message_base = 0x1000;
    tasks[0].save.send_message_len = 4;
    tasks[1].state = TaskState::Healthy(SchedState::InRecv(None));
    tasks[1].save.recv_buffer_base = 0x9000;
    tasks[1].save.recv_buffer_len = 4;

    let r = send(&mut tasks, 0);

    assert_eq!(r, Ok(NextTask::Other));
    assert_eq!(tasks[0].state, TaskState::Healthy(SchedState::InSend(1)));
    assert_eq!(
        tasks[1].state,
        TaskState::Faulted(FaultInfo::MemoryAccess {
            address: Some(0x9000),
            source: kern::task::FaultSource::Kernel
        })
    );
}

/// REPLY to a stale identity is a no-op success: the original sender is
/// gone, nothing happens to anyone.
#[test]
fn reply_stale_id_is_noop() {
    let mut tasks = vec![
        task_with(1, 0, 0x1000, 0x100),
        task_with(2, 8, 0x2000, 0x100),
    ];
    tasks[0].save.reply_target = TaskId { index: 1, generation: 7 };

    let r = reply(&mut tasks, 0);

    assert_eq!(r, Ok(NextTask::Same));
    assert_eq!(tasks[1].state, TaskState::Healthy(SchedState::Runnable));
}

/// REPLY to a target that is not awaiting this caller's reply is likewise a
/// no-op success with no state change to the target.
#[test]
fn reply_to_unwaiting_target_is_noop() {
    let mut tasks = vec![
        task_with(1, 0, 0x1000, 0x100),
        task_with(2, 0, 0x2000, 0x100),
    ];
    tasks[0].save.reply_target = TaskId { index: 1, generation: 0 };
    tasks[1].state = TaskState::Healthy(SchedState::InRecv(Some(3)));

    let r = reply(&mut tasks, 0);

    assert_eq!(r, Ok(NextTask::Same));
    assert_eq!(tasks[1].state, TaskState::Healthy(SchedState::InRecv(Some(3))));
}

/// A successful reply copies the payload into the sender's registered
/// response buffer, hands it the response code and length, resumes it — and
/// never asks to switch away from the replier.
#[test]
fn reply_delivers_payload_same_hint() {
    let mut tasks = vec![
        task_with(1, 0, 0x1000, 0x100),
        task_with(2, 0, 0x2000, 0x100),
    ];
    tasks[1].state = TaskState::Healthy(SchedState::InReply(0));
    tasks[1].save.send_response_base = 0x2020;
    tasks[1].save.send_response_len = 8;
    tasks[0].save.reply_target = TaskId { index: 1, generation: 0 };
    tasks[0].save.reply_code = 0;
    tasks[0].save.reply_message_base = 0x1000;
    tasks[0].save.reply_message_len = 3;
    tasks[0].mem[0] = 1;
    tasks[0].mem[1] = 2;
    tasks[0].mem[2] = 3;

    let r = reply(&mut tasks, 0);

    assert_eq!(r, Ok(NextTask::Same));
    assert_eq!(tasks[1].state, TaskState::Healthy(SchedState::Runnable));
    assert_eq!(tasks[1].save.response_code, 0);
    assert_eq!(tasks[1].save.response_length, 3);
    assert_eq!(&tasks[1].mem[0x20..0x23], &[1, 2, 3]);
}

/// An oversized reply is truncated to the target's buffer capacity, not
/// punished: the target sees exactly its buffer's worth.
#[test]
fn reply_truncates_to_response_buffer() {
    let mut tasks = vec![
        task_with(1, 0, 0x1000, 0x100),
        task_with(2, 0, 0x2000, 0x100),
    ];
    tasks[1].state = TaskState::Healthy(SchedState::InReply(0));
    tasks[1].save.send_response_base = 0x2000;
    tasks[1].save.send_response_len = 2;
    tasks[0].save.reply_target = TaskId { index: 1, generation: 0 };
    tasks[0].save.reply_code = 5;
    tasks[0].save.reply_message_base = 0x1000;
    tasks[0].save.reply_message_len = 6;
    for i in 0..6 {
        tasks[0].mem[i] = 0x40 + i as u8;
    }

    let r = reply(&mut tasks, 0);

    assert_eq!(r, Ok(NextTask::Same));
    assert_eq!(tasks[1].save.response_code, 5);
    assert_eq!(tasks[1].save.response_length, 2);
    assert_eq!(&tasks[1].mem[0..3], &[0x40, 0x41, 0x00]);
}

/// A receive with pending bits overlapping the new mask resumes at once with
/// an artificial message from the kernel carrying the fired bits, which are
/// consumed.
#[test]
fn recv_pending_notification_fires() {
    let mut tasks = vec![task_with(1, 0, 0x1000, 0x100)];
    tasks[0].notifications = 0b1010;
    tasks[0].save.recv_notification_mask = 0b0011;

    let r = recv(&mut tasks, 0);

    assert_eq!(r, Ok(NextTask::Same));
    assert_eq!(tasks[0].save.recv_sender, TaskId { index: KERNEL_INDEX, generation: 0 });
    assert_eq!(tasks[0].save.recv_operation, 0b0010);
    assert_eq!(tasks[0].save.recv_length, 0);
    assert_eq!(tasks[0].notifications, 0b1000);
    assert_eq!(tasks[0].state, TaskState::Healthy(SchedState::Runnable));
}

/// With nothing pending and nobody sending, the caller blocks in an open
/// receive.
#[test]
fn recv_blocks_open() {
    let mut tasks = vec![
        task_with(1, 0, 0x1000, 0x100),
        task_with(2, 0, 0x2000, 0x100),
    ];
    let r = recv(&mut tasks, 0);

    assert_eq!(r, Ok(NextTask::Other));
    assert_eq!(tasks[0].state, TaskState::Healthy(SchedState::InRecv(None)));
}

/// TIMER with a deadline already passed fires within the same call: the bits
/// appear in the pending set immediately and the timer is disarmed.
#[test]
fn timer_expired_fires_immediately() {
    let now = 1000u64;
    let mut tasks = vec![
        task_with(1, 0, 0x1000, 0x100),
        task_with(1, 0, 0x2000, 0x100),
        task_with(1, 0, 0x3000, 0x100),
        task_with(3, 0, 0x4000, 0x100),
    ];
    tasks[3].save.timer_armed = true;
    tasks[3].save.timer_deadline = now - 1;
    tasks[3].save.timer_notification = 0x4;

    let (hint, _) = safe_syscall_entry(3, 3, &mut tasks, now, &no_irqs());

    assert_eq!(hint, NextTask::Same);
    assert_eq!(tasks[3].notifications & 0x4, 0x4);
    assert_eq!(tasks[3].timer.deadline, None);
}

/// The same expired timer, set while the task's recorded state is a receive
/// with an overlapping mask, wakes it within the very call: no separate tick
/// is needed.
#[test]
fn timer_expired_wakes_receiver_in_same_call() {
    let mut t = Task::new(3, 0, 0x4000, 0x100);
    t.state = TaskState::Healthy(SchedState::InRecv(None));
    t.notification_mask = 0x6;
    t.save.timer_armed = true;
    t.save.timer_deadline = 41;
    t.save.timer_notification = 0x4;

    let r = timer(&mut t, 42);

    assert_eq!(r, NextTask::Same);
    assert_eq!(t.state, TaskState::Healthy(SchedState::Runnable));
    assert_eq!(t.save.recv_sender, TaskId { index: KERNEL_INDEX, generation: 0 });
    assert_eq!(t.save.recv_operation, 0x4);
    assert_eq!(t.notifications, 0);
}

/// A future deadline simply replaces the pending timer.
#[test]
fn timer_future_deadline_is_stored() {
    let mut t = Task::new(1, 0, 0x1000, 0x10);
    t.save.timer_armed = true;
    t.save.timer_deadline = 500;
    t.save.timer_notification = 0x8;

    let r = timer(&mut t, 100);

    assert_eq!(r, NextTask::Same);
    assert_eq!(t.timer.deadline, Some(500));
    assert_eq!(t.timer.to_post, 0x8);
    assert_eq!(t.notifications, 0);
}

/// An unrecognized syscall number always faults the caller; it is never a
/// recoverable error.
#[test]
fn bad_syscall_number_faults() {
    let mut tasks = vec![task_with(1, 0, 0x1000, 0x10)];

    let (hint, action) = safe_syscall_entry(99, 0, &mut tasks, 0, &no_irqs());

    assert_eq!(hint, NextTask::Other);
    assert_eq!(action, None);
    assert_eq!(
        tasks[0].state,
        TaskState::Faulted(FaultInfo::SyscallUsage(UsageError::BadSyscallNumber))
    );
}

/// IRQ-CONTROL enables or disables exactly the statically granted line, and
/// anything else — no binding, or a control code that is neither — faults.
#[test]
fn irq_control_drives_granted_line() {
    let irqs = vec![
        IrqBinding { irq: 33, task: 0, notification: 0x1 },
        IrqBinding { irq: 61, task: 0, notification: 0x2 },
    ];
    let mut tasks = vec![task_with(1, 0, 0x1000, 0x10)];
    tasks[0].save.irq_notification = 0x2;
    tasks[0].save.irq_control_code = 1;

    let (hint, action) = safe_syscall_entry(7, 0, &mut tasks, 0, &irqs);
    assert_eq!(hint, NextTask::Same);
    assert_eq!(action, Some(IrqAction::Enable(61)));

    tasks[0].save.irq_control_code = 0;
    let (_, action) = safe_syscall_entry(7, 0, &mut tasks, 0, &irqs);
    assert_eq!(action, Some(IrqAction::Disable(61)));
}

#[test]
fn irq_control_without_grant_faults() {
    let irqs = vec![IrqBinding { irq: 33, task: 1, notification: 0x1 }];
    let mut tasks = vec![task_with(1, 0, 0x1000, 0x10)];
    tasks[0].save.irq_notification = 0x1;
    tasks[0].save.irq_control_code = 1;

    let (hint, action) = safe_syscall_entry(7, 0, &mut tasks, 0, &irqs);

    assert_eq!(hint, NextTask::Other);
    assert_eq!(action, None);
    assert_eq!(
        tasks[0].state,
        TaskState::Faulted(FaultInfo::SyscallUsage(UsageError::NoIrq))
    );
}

#[test]
fn irq_control_bad_code_faults() {
    let irqs = vec![IrqBinding { irq: 33, task: 0, notification: 0x1 }];
    let mut tasks = vec![task_with(1, 0, 0x1000, 0x10)];
    tasks[0].save.irq_notification = 0x1;
    tasks[0].save.irq_control_code = 2;

    let (hint, _) = safe_syscall_entry(7, 0, &mut tasks, 0, &irqs);

    assert_eq!(hint, NextTask::Other);
    assert_eq!(
        tasks[0].state,
        TaskState::Faulted(FaultInfo::SyscallUsage(UsageError::NoIrq))
    );
}

/// Rendezvous symmetry on concrete tasks: whether the receive finds the
/// sender already waiting, or the send finds the receiver already waiting,
/// the pair ends in the same protocol state with the same stamped message.
#[test]
fn rendezvous_order_symmetry() {
    let build = || {
        let mut tasks = vec![
            task_with(1, 0, 0x1000, 0x100),
            task_with(2, 0, 0x2000, 0x100),
        ];
        tasks[1].save.send_target = TaskId { index: 0, generation: 0 };
        tasks[1].save.send_operation = 7;
        tasks[1].save.send_message_base = 0x2000;
        tasks[1].save.send_message_len = 3;
        tasks[1].mem[..3].copy_from_slice(&[9, 8, 7]);
        tasks[0].save.recv_buffer_base = 0x1000;
        tasks[0].save.recv_buffer_len = 8;
        tasks[0].save.recv_notification_mask = 0;
        tasks
    };

    // Receive second: the sender is already blocked.
    let mut t_recv_second = build();
    t_recv_second[1].state = TaskState::Healthy(SchedState::InSend(0));
    assert_eq!(recv(&mut t_recv_second, 0), Ok(NextTask::Same));

    // Send second: the receiver is already blocked (its earlier receive set
    // the same mask).
    let mut t_send_second = build();
    t_send_second[0].state = TaskState::Healthy(SchedState::InRecv(None));
    assert_eq!(send(&mut t_send_second, 1), Ok(NextTask::Specific(0)));

    for (a, b) in t_recv_second.iter().zip(t_send_second.iter()) {
        assert_eq!(a.state, b.state);
        assert_eq!(a.save, b.save);
        assert_eq!(a.mem, b.mem);
        assert_eq!(a.notifications, b.notifications);
    }
    assert_eq!(t_recv_second[1].state, TaskState::Healthy(SchedState::InReply(0)));
    assert_eq!(t_recv_second[0].save.recv_sender, TaskId { index: 1, generation: 0 });
    assert_eq!(t_recv_second[0].save.recv_length, 3);
    assert_eq!(&t_recv_second[0].mem[0..3], &[9, 8, 7]);
}

/// The scheduler helper picks the most important runnable task, scanning
/// past the current one first.
#[test]
fn select_prefers_priority_then_scan_order() {
    let mut tasks = vec![
        task_with(5, 0, 0x1000, 0x10),
        task_with(2, 0, 0x2000, 0x10),
        task_with(2, 0, 0x3000, 0x10),
        task_with(7, 0, 0x4000, 0x10),
    ];
    tasks[0].state = TaskState::Healthy(SchedState::InRecv(None));

    // Among the runnable tasks 1, 2, 3, priority 2 wins; scanning starts
    // just past slot 1, so of the tied slots 1 and 2, slot 2 comes first.
    assert_eq!(select(1, &tasks), Some(2));
    // From slot 3 the scan wraps and reaches slot 1 before slot 2.
    assert_eq!(select(3, &tasks), Some(1));
}
