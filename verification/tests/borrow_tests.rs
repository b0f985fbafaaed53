//! Lease resolution and borrow transfers on concrete tables, with lease
//! entries laid out in the lender's memory exactly as the kernel reads them.

use kern::borrow::{borrow_info, borrow_read, borrow_write};
use kern::dispatch::safe_syscall_entry;
use kern::err::UserError;
use kern::task::{FaultInfo, NextTask, SchedState, Task, TaskId, TaskState, UsageError};
use kern::umem::{LEASE_READ, LEASE_WRITE};
use kern::{DEAD, DEFECT};

fn lend_task(priority: u32, generation: u16, mem_base: u32, mem_size: u32) -> Task {
    Task::new(priority, generation, mem_base, mem_size)
}

/// Write one 12-byte lease entry (attributes, base, length as little-endian
/// words) at entry `i` of the lease table that `t` claims at `table_off`
/// within its region.
fn put_lease(t: &mut Task, table_off: usize, i: usize, attributes: u32, base: u32, length: u32) {
    let off = table_off + 12 * i;
    t.mem[off..off + 4].copy_from_slice(&attributes.to_le_bytes());
    t.mem[off + 4..off + 8].copy_from_slice(&base.to_le_bytes());
    t.mem[off + 8..off + 12].copy_from_slice(&length.to_le_bytes());
}

/// A lender blocked in reply to task 0, exposing one lease over
/// `[lease_base, lease_base + lease_len)` of its own memory with the given
/// attribute bits; its lease table sits at the start of its region.
fn table_with_lender(attributes: u32, lease_base: u32, lease_len: u32) -> Vec<Task> {
    let mut tasks = vec![
        lend_task(2, 0, 0x1000, 0x100),
        lend_task(1, 6, 0x2000, 0x100),
    ];
    tasks[1].state = TaskState::Healthy(SchedState::InReply(0));
    tasks[1].save.send_lease_base = 0x2000;
    tasks[1].save.send_lease_count = 1;
    put_lease(&mut tasks[1], 0, 0, attributes, lease_base, lease_len);
    tasks[0].save.borrow_lender = TaskId { index: 1, generation: 6 };
    tasks[0].save.borrow_lease_number = 0;
    tasks[0].save.borrow_offset = 0;
    tasks[0].save.borrow_buffer_base = 0x1000;
    tasks[0].save.borrow_buffer_len = 8;
    tasks
}

/// BORROW-INFO reports the lease's raw attribute bits and its length without
/// copying anything.
#[test]
fn borrow_info_reports_attributes_and_length() {
    let mut tasks = table_with_lender(LEASE_READ | LEASE_WRITE, 0x2040, 24);

    let r = borrow_info(&mut tasks, 0);

    assert_eq!(r, Ok(NextTask::Same));
    assert_eq!(tasks[0].save.response_code, 0);
    assert_eq!(tasks[0].save.response_attributes, LEASE_READ | LEASE_WRITE);
    assert_eq!(tasks[0].save.response_length, 24);
}

/// BORROW-READ copies out of the leased region, honoring the borrower's
/// offset, and reports the copied length.
#[test]
fn borrow_read_copies_leased_bytes() {
    let mut tasks = table_with_lender(LEASE_READ, 0x2040, 8);
    for i in 0..8 {
        tasks[1].mem[0x40 + i] = 0x60 + i as u8;
    }
    tasks[0].save.borrow_offset = 2;
    tasks[0].save.borrow_buffer_len = 4;

    let r = borrow_read(&mut tasks, 0);

    assert_eq!(r, Ok(NextTask::Same));
    assert_eq!(tasks[0].save.response_code, 0);
    assert_eq!(tasks[0].save.response_length, 4);
    assert_eq!(&tasks[0].mem[0..4], &[0x62, 0x63, 0x64, 0x65]);
}

/// BORROW-WRITE copies into the leased region and reports the copied length.
#[test]
fn borrow_write_copies_into_lease() {
    let mut tasks = table_with_lender(LEASE_WRITE, 0x2040, 8);
    tasks[0].save.borrow_buffer_len = 3;
    tasks[0].mem[0] = 0xa1;
    tasks[0].mem[1] = 0xa2;
    tasks[0].mem[2] = 0xa3;

    let r = borrow_write(&mut tasks, 0);

    assert_eq!(r, Ok(NextTask::Same));
    assert_eq!(tasks[0].save.response_length, 3);
    assert_eq!(&tasks[1].mem[0x40..0x44], &[0xa1, 0xa2, 0xa3, 0x00]);
}

/// BORROW-READ against a write-only lease is a recoverable defecting-lender
/// answer and copies zero bytes.
#[test]
fn borrow_read_wrong_direction_is_defect() {
    let mut tasks = table_with_lender(LEASE_WRITE, 0x2040, 8);
    tasks[1].mem[0x40] = 0x77;

    let r = borrow_read(&mut tasks, 0);

    assert_eq!(r, Err(UserError::Recoverable(DEFECT)));
    assert_eq!(tasks[0].mem[0], 0);
    assert_eq!(tasks[0].state, TaskState::Healthy(SchedState::Runnable));
    assert_eq!(tasks[1].state, TaskState::Healthy(SchedState::InReply(0)));
}

/// And the mirror image: BORROW-WRITE against a read-only lease.
#[test]
fn borrow_write_wrong_direction_is_defect() {
    let mut tasks = table_with_lender(LEASE_READ, 0x2040, 8);
    tasks[0].mem[0] = 0x55;

    let r = borrow_write(&mut tasks, 0);

    assert_eq!(r, Err(UserError::Recoverable(DEFECT)));
    assert_eq!(tasks[1].mem[0x40], 0);
    assert_eq!(tasks[1].state, TaskState::Healthy(SchedState::InReply(0)));
}

/// A lease number at or beyond the lender's table faults the borrower —
/// through the dispatcher, the borrower stops and the lender is untouched.
#[test]
fn lease_number_out_of_range_faults_borrower() {
    let mut tasks = table_with_lender(LEASE_READ, 0x2040, 8);
    tasks[0].save.borrow_lease_number = 1;

    let (hint, _) = safe_syscall_entry(6, 0, &mut tasks, 0, &Vec::new());

    assert_eq!(hint, NextTask::Other);
    assert_eq!(
        tasks[0].state,
        TaskState::Faulted(FaultInfo::SyscallUsage(UsageError::LeaseOutOfRange))
    );
    assert_eq!(tasks[1].state, TaskState::Healthy(SchedState::InReply(0)));
}

/// An offset beyond the resolved lease's length likewise faults the borrower
/// alone.
#[test]
fn offset_out_of_range_faults_borrower() {
    let mut tasks = table_with_lender(LEASE_READ, 0x2040, 8);
    tasks[0].save.borrow_offset = 9;

    let (hint, _) = safe_syscall_entry(4, 0, &mut tasks, 0, &Vec::new());

    assert_eq!(hint, NextTask::Other);
    assert_eq!(
        tasks[0].state,
        TaskState::Faulted(FaultInfo::SyscallUsage(UsageError::OffsetOutOfRange))
    );
    assert_eq!(tasks[1].state, TaskState::Healthy(SchedState::InReply(0)));
}

/// An offset equal to the lease's length is still in range: it yields an
/// empty window, not a fault.
#[test]
fn offset_at_length_is_allowed() {
    let mut tasks = table_with_lender(LEASE_READ, 0x2040, 8);
    tasks[0].save.borrow_offset = 8;

    let r = borrow_read(&mut tasks, 0);

    assert_eq!(r, Ok(NextTask::Same));
    assert_eq!(tasks[0].save.response_length, 0);
}

/// A BORROW naming a slot the table never had is recoverable too, the same
/// dead-recipient answer as a stale generation.
#[test]
fn borrow_from_impossible_index_recoverable() {
    let mut tasks = table_with_lender(LEASE_READ, 0x2040, 8);
    tasks[0].save.borrow_lender = TaskId { index: 17, generation: 0 };

    let (hint, _) = safe_syscall_entry(4, 0, &mut tasks, 0, &Vec::new());

    assert_eq!(hint, NextTask::Same);
    assert_eq!(tasks[0].state, TaskState::Healthy(SchedState::Runnable));
    assert_eq!(tasks[0].save.response_code, DEAD);
}

/// A BORROW naming a stale lender generation is recoverable, never a fault.
#[test]
fn borrow_stale_generation_recoverable() {
    let mut tasks = table_with_lender(LEASE_READ, 0x2040, 8);
    tasks[0].save.borrow_lender = TaskId { index: 1, generation: 5 };

    let (hint, _) = safe_syscall_entry(4, 0, &mut tasks, 0, &Vec::new());

    assert_eq!(hint, NextTask::Same);
    assert_eq!(tasks[0].state, TaskState::Healthy(SchedState::Runnable));
    assert_eq!(tasks[0].save.response_code, DEAD);
}

/// A task that is not mid-reply to the borrower is not lending: the borrower
/// gets the recoverable defect answer and nobody faults.
#[test]
fn borrow_from_non_lending_task_is_defect() {
    let mut tasks = table_with_lender(LEASE_READ, 0x2040, 8);
    tasks[1].state = TaskState::Healthy(SchedState::Runnable);

    let r = borrow_read(&mut tasks, 0);

    assert_eq!(r, Err(UserError::Recoverable(DEFECT)));
    assert_eq!(tasks[0].state, TaskState::Healthy(SchedState::Runnable));
    assert_eq!(tasks[1].state, TaskState::Healthy(SchedState::Runnable));
}

/// A lender whose recorded lease table wraps the address space is stopped,
/// and the borrower still only sees a defecting lender.
#[test]
fn corrupt_lease_table_faults_lender() {
    let mut tasks = table_with_lender(LEASE_READ, 0x2040, 8);
    tasks[1].save.send_lease_base = 0xffff_fff0;
    tasks[1].save.send_lease_count = 0x4000_0000;

    let r = borrow_read(&mut tasks, 0);

    assert_eq!(r, Err(UserError::Recoverable(DEFECT)));
    assert_eq!(
        tasks[1].state,
        TaskState::Faulted(FaultInfo::SyscallUsage(UsageError::InvalidSlice))
    );
}

/// A lease pointing outside the lender's own memory is caught by the copy's
/// revalidation: the lender faults, the borrower sees a defect.
#[test]
fn lease_outside_lender_memory_faults_lender() {
    let mut tasks = table_with_lender(LEASE_READ, 0x8000, 8);

    let r = borrow_read(&mut tasks, 0);

    assert_eq!(r, Err(UserError::Recoverable(DEFECT)));
    assert_eq!(
        tasks[1].state,
        TaskState::Faulted(FaultInfo::MemoryAccess {
            address: Some(0x8000),
            source: kern::task::FaultSource::Kernel
        })
    );
}

/// A borrower whose own buffer claim wraps the address space is at fault
/// itself.
#[test]
fn borrow_with_wrapping_buffer_faults_borrower() {
    let mut tasks = table_with_lender(LEASE_READ, 0x2040, 8);
    tasks[0].save.borrow_buffer_base = 0xffff_ffff;
    tasks[0].save.borrow_buffer_len = 2;

    let r = borrow_read(&mut tasks, 0);

    assert_eq!(
        r,
        Err(UserError::Unrecoverable(FaultInfo::SyscallUsage(UsageError::InvalidSlice)))
    );
}
