//! The task table: control blocks, generation-counted identity, scheduling
//! state, notifications, timers, and the priority-ordered table scan.

use vstd::prelude::*;

use crate::umem::USlice;
use crate::DEAD;

verus! {

/// Reserved sender index used when the kernel itself synthesizes a message
/// (a notification delivery). Never a valid table index.
pub const KERNEL_INDEX: u16 = 0xffff;

/// Identity of a task instance: a table slot plus the generation the slot had
/// when the identity was handed out. A restart bumps the generation, so stale
/// identities held by other tasks stop resolving.
#[derive(Clone, Copy, Debug, PartialEq, Eq, Structural)]
pub struct TaskId {
    pub index: u16,
    pub generation: u16,
}

impl TaskId {
    /// The identity the kernel signs artificial messages with.
    pub fn kernel() -> (r: TaskId)
        ensures
            r == (TaskId { index: KERNEL_INDEX, generation: 0 }),
    {
        TaskId { index: KERNEL_INDEX, generation: 0 }
    }
}

/// Scheduling state of a healthy task. A task is in at most one blocking
/// relationship at a time.
#[derive(Clone, Copy, Debug, PartialEq, Eq, Structural)]
pub enum SchedState {
    /// Ready to run whenever the scheduler picks it.
    Runnable,
    /// Blocked offering a message to the given table slot.
    InSend(usize),
    /// Blocked waiting for a message; `Some` restricts to one sender.
    InRecv(Option<usize>),
    /// Message delivered to the given slot; waiting for its reply.
    InReply(usize),
}

/// Why a syscall argument was malformed.
#[derive(Clone, Copy, Debug, PartialEq, Eq, Structural)]
pub enum UsageError {
    BadSyscallNumber,
    InvalidSlice,
    LeaseOutOfRange,
    OffsetOutOfRange,
    NoIrq,
}

/// Which side of a cross-task copy the kernel blames for a memory fault.
#[derive(Clone, Copy, Debug, PartialEq, Eq, Structural)]
pub enum FaultSource {
    /// The task touched memory directly.
    User,
    /// The kernel touched it on the task's behalf.
    Kernel,
}

/// Why a task was forcibly stopped.
#[derive(Clone, Copy, Debug, PartialEq, Eq)]
pub enum FaultInfo {
    /// The task passed garbage to a syscall.
    SyscallUsage(UsageError),
    /// A cross-task copy found a region the owning task may not touch.
    MemoryAccess { address: Option<u32>, source: FaultSource },
}

/// A task is either healthy (with a scheduling state) or stopped by a fault
/// until external supervision restarts it. The kernel never observes an
/// intermediate state.
#[derive(Clone, Copy, Debug, PartialEq, Eq)]
pub enum TaskState {
    Healthy(SchedState),
    Faulted(FaultInfo),
}

/// Scheduling hint produced by every syscall.
#[derive(Clone, Copy, Debug, PartialEq, Eq, Structural)]
pub enum NextTask {
    /// The current task keeps running.
    Same,
    /// Switch directly to this table slot.
    Specific(usize),
    /// No opinion; ask the scheduler.
    Other,
}

/// One pending software timer per task: an optional deadline and the
/// notification bits to post when it fires.
#[derive(Clone, Copy, Debug, PartialEq, Eq)]
pub struct TimerState {
    pub deadline: Option<u64>,
    pub to_post: u32,
}

/// Saved per-task register file, viewed as typed syscall arguments and
/// response fields. The fields the kernel writes back are at the bottom.
#[derive(Clone, Copy, Debug, PartialEq, Eq)]
pub struct SavedState {
    // SEND arguments.
    pub send_target: TaskId,
    pub send_operation: u16,
    pub send_message_base: u32,
    pub send_message_len: u32,
    pub send_response_base: u32,
    pub send_response_len: u32,
    pub send_lease_base: u32,
    pub send_lease_count: u32,
    // RECEIVE arguments.
    pub recv_buffer_base: u32,
    pub recv_buffer_len: u32,
    pub recv_notification_mask: u32,
    // REPLY arguments.
    pub reply_target: TaskId,
    pub reply_code: u32,
    pub reply_message_base: u32,
    pub reply_message_len: u32,
    // TIMER arguments.
    pub timer_armed: bool,
    pub timer_deadline: u64,
    pub timer_notification: u32,
    // BORROW arguments.
    pub borrow_lender: TaskId,
    pub borrow_lease_number: u32,
    pub borrow_offset: u32,
    pub borrow_buffer_base: u32,
    pub borrow_buffer_len: u32,
    // IRQ-CONTROL arguments.
    pub irq_notification: u32,
    pub irq_control_code: u32,
    // Response fields written by the kernel.
    pub response_code: u32,
    pub response_length: u32,
    pub response_attributes: u32,
    pub recv_sender: TaskId,
    pub recv_operation: u32,
    pub recv_length: u32,
    pub recv_response_capacity: u32,
    pub recv_lease_count: u32,
}

impl SavedState {
    /// The message a SEND offers, as claimed.
    pub open spec fn send_msg_slice(self) -> USlice {
        USlice { base: self.send_message_base, len: self.send_message_len }
    }

    pub open spec fn send_msg_ok(self) -> bool {
        crate::umem::slice_arg_ok(self.send_message_base, self.send_message_len)
    }

    /// The buffer a SEND registers for the eventual reply.
    pub open spec fn send_resp_slice(self) -> USlice {
        USlice { base: self.send_response_base, len: self.send_response_len }
    }

    pub open spec fn send_resp_ok(self) -> bool {
        crate::umem::slice_arg_ok(self.send_response_base, self.send_response_len)
    }

    /// The lease table a SEND exposes: `send_lease_count` twelve-byte entries.
    pub open spec fn lease_table_ok(self) -> bool {
        self.send_lease_base + self.send_lease_count * 12 <= 0x1_0000_0000
    }

    pub open spec fn lease_table_slice(self) -> USlice {
        USlice { base: self.send_lease_base, len: (self.send_lease_count * 12) as u32 }
    }

    /// The buffer a RECEIVE offers for an arriving message.
    pub open spec fn recv_buf_slice(self) -> USlice {
        USlice { base: self.recv_buffer_base, len: self.recv_buffer_len }
    }

    pub open spec fn recv_buf_ok(self) -> bool {
        crate::umem::slice_arg_ok(self.recv_buffer_base, self.recv_buffer_len)
    }

    /// The buffer a BORROW-READ fills or a BORROW-WRITE drains.
    pub open spec fn borrow_buf_slice(self) -> USlice {
        USlice { base: self.borrow_buffer_base, len: self.borrow_buffer_len }
    }

    pub open spec fn borrow_buf_ok(self) -> bool {
        crate::umem::slice_arg_ok(self.borrow_buffer_base, self.borrow_buffer_len)
    }

    /// The payload a REPLY hands back.
    pub open spec fn reply_msg_slice(self) -> USlice {
        USlice { base: self.reply_message_base, len: self.reply_message_len }
    }

    pub open spec fn reply_msg_ok(self) -> bool {
        crate::umem::slice_arg_ok(self.reply_message_base, self.reply_message_len)
    }
}

/// A saved register file with every argument and response field zero.
pub open spec fn zeroed_save() -> SavedState {
    SavedState {
        send_target: TaskId { index: 0, generation: 0 },
        send_operation: 0,
        send_message_base: 0,
        send_message_len: 0,
        send_response_base: 0,
        send_response_len: 0,
        send_lease_base: 0,
        send_lease_count: 0,
        recv_buffer_base: 0,
        recv_buffer_len: 0,
        recv_notification_mask: 0,
        reply_target: TaskId { index: 0, generation: 0 },
        reply_code: 0,
        reply_message_base: 0,
        reply_message_len: 0,
        timer_armed: false,
        timer_deadline: 0,
        timer_notification: 0,
        borrow_lender: TaskId { index: 0, generation: 0 },
        borrow_lease_number: 0,
        borrow_offset: 0,
        borrow_buffer_base: 0,
        borrow_buffer_len: 0,
        irq_notification: 0,
        irq_control_code: 0,
        response_code: 0,
        response_length: 0,
        response_attributes: 0,
        recv_sender: TaskId { index: 0, generation: 0 },
        recv_operation: 0,
        recv_length: 0,
        recv_response_capacity: 0,
        recv_lease_count: 0,
    }
}

impl SavedState {
    /// The register file a freshly booted task starts with.
    pub fn zeroed() -> (r: SavedState)
        ensures
            r == zeroed_save(),
    {
        SavedState {
            send_target: TaskId { index: 0, generation: 0 },
            send_operation: 0,
            send_message_base: 0,
            send_message_len: 0,
            send_response_base: 0,
            send_response_len: 0,
            send_lease_base: 0,
            send_lease_count: 0,
            recv_buffer_base: 0,
            recv_buffer_len: 0,
            recv_notification_mask: 0,
            reply_target: TaskId { index: 0, generation: 0 },
            reply_code: 0,
            reply_message_base: 0,
            reply_message_len: 0,
            timer_armed: false,
            timer_deadline: 0,
            timer_notification: 0,
            borrow_lender: TaskId { index: 0, generation: 0 },
            borrow_lease_number: 0,
            borrow_offset: 0,
            borrow_buffer_base: 0,
            borrow_buffer_len: 0,
            irq_notification: 0,
            irq_control_code: 0,
            response_code: 0,
            response_length: 0,
            response_attributes: 0,
            recv_sender: TaskId { index: 0, generation: 0 },
            recv_operation: 0,
            recv_length: 0,
            recv_response_capacity: 0,
            recv_lease_count: 0,
        }
    }
}

/// One task control block. The table is fixed at boot; entries are only ever
/// reset, never added or removed. Each task owns a single memory region
/// `[mem_base, mem_base + mem.len())` with its own access attributes; every
/// cross-task copy revalidates against it.
pub struct Task {
    /// Immutable priority, lower number = more important.
    pub priority: u32,
    /// Bumped on restart; gates every identity naming this slot.
    pub generation: u16,
    pub state: TaskState,
    /// Which notification bits the task currently listens for.
    pub notification_mask: u32,
    /// Notification bits posted but not yet consumed.
    pub notifications: u32,
    pub timer: TimerState,
    pub save: SavedState,
    /// Base address of the task's memory region.
    pub mem_base: u32,
    /// Contents of the region; its length is the region size.
    pub mem: Vec<u8>,
    /// May the task (and the kernel on its behalf) read the region?
    pub mem_read: bool,
    /// May the task (and the kernel on its behalf) write the region?
    pub mem_write: bool,
}

impl Task {
    /// The region fits the 32-bit address space without wrapping.
    pub open spec fn wf(self) -> bool {
        self.mem_base + self.mem@.len() <= 0x1_0000_0000
    }

    /// A freshly booted task: runnable, generation as configured, nothing
    /// pending, all of its zero-filled region readable and writable.
    pub fn new(priority: u32, generation: u16, mem_base: u32, mem_size: u32) -> (r: Task)
        requires
            mem_base + mem_size <= 0x1_0000_0000,
        ensures
            r == (Task {
                priority,
                generation,
                state: TaskState::Healthy(SchedState::Runnable),
                notification_mask: 0,
                notifications: 0,
                timer: TimerState { deadline: None::<u64>, to_post: 0 },
                save: zeroed_save(),
                mem_base,
                mem: r.mem,
                mem_read: true,
                mem_write: true,
            }),
            r.mem@.len() == mem_size,
            forall|i: int| 0 <= i < mem_size ==> r.mem@[i] == 0u8,
    {
        let mut mem: Vec<u8> = Vec::new();
        let mut i: u32 = 0;
        while i < mem_size
            invariant
                i <= mem_size,
                mem@.len() == i,
                forall|j: int| 0 <= j < i ==> mem@[j] == 0u8,
            decreases mem_size - i,
        {
            mem.push(0);
            i = i + 1;
        }
        Task {
            priority,
            generation,
            state: TaskState::Healthy(SchedState::Runnable),
            notification_mask: 0,
            notifications: 0,
            timer: TimerState { deadline: None, to_post: 0 },
            save: SavedState::zeroed(),
            mem_base,
            mem,
            mem_read: true,
            mem_write: true,
        }
    }

    /// A (possibly empty) slice lies inside the task's region.
    pub open spec fn slice_in_region(self, s: USlice) -> bool {
        s.len == 0 || (self.mem_base <= s.base && s.base + s.len <= self.mem_base + self.mem@.len())
    }

    /// The task may read every byte of `s`. Empty slices are always fine:
    /// no byte is touched.
    pub open spec fn spec_can_read(self, s: USlice) -> bool {
        s.len == 0 || (self.mem_read && self.slice_in_region(s))
    }

    /// The task may write every byte of `s`.
    pub open spec fn spec_can_write(self, s: USlice) -> bool {
        s.len == 0 || (self.mem_write && self.slice_in_region(s))
    }

    pub fn can_read(&self, s: &USlice) -> (r: bool)
        requires
            self.wf(),
        ensures
            r == self.spec_can_read(*s),
    {
        s.len == 0 || (self.mem_read
            && self.mem_base <= s.base
            && (s.base as u64) + (s.len as u64) <= (self.mem_base as u64) + (self.mem.len() as u64))
    }

    pub fn can_write(&self, s: &USlice) -> (r: bool)
        requires
            self.wf(),
        ensures
            r == self.spec_can_write(*s),
    {
        s.len == 0 || (self.mem_write
            && self.mem_base <= s.base
            && (s.base as u64) + (s.len as u64) <= (self.mem_base as u64) + (self.mem.len() as u64))
    }

    /// Atomically stop the task with the given fault record. Everything else
    /// about the task is untouched; it does not resume until externally
    /// restarted. The hint says some other task should run.
    pub fn force_fault(&mut self, fault: FaultInfo) -> (r: NextTask)
        ensures
            *final(self) == (Task { state: TaskState::Faulted(fault), ..*old(self) }),
            r == NextTask::Other,
    {
        self.state = TaskState::Faulted(fault);
        NextTask::Other
    }

    /// Replace the notification mask and report which pending bits now fire.
    pub fn update_mask(&mut self, mask: u32) -> (firing: Option<u32>)
        ensures
            *final(self) == (Task { notification_mask: mask, ..*old(self) }),
            firing == (if old(self).notifications & mask != 0 {
                Some(old(self).notifications & mask)
            } else {
                None::<u32>
            }),
    {
        self.notification_mask = mask;
        let f = self.notifications & mask;
        if f != 0 {
            Some(f)
        } else {
            None
        }
    }

    /// Clear the pending bits that the current mask just consumed.
    pub fn acknowledge_notifications(&mut self)
        ensures
            *final(self) == (Task {
                notifications: old(self).notifications & !old(self).notification_mask,
                ..*old(self)
            }),
    {
        self.notifications = self.notifications & !self.notification_mask;
    }

    /// Record the kernel's answer to a receive: who sent, which operation,
    /// how many bytes arrived, how large a reply may be, and how many leases
    /// the sender exposed.
    pub fn set_recv_result(&mut self, sender: TaskId, operation: u32, length: u32, capacity: u32, leases: u32)
        ensures
            *final(self) == (Task {
                save: recv_stamped(old(self).save, sender, operation, length, capacity, leases),
                ..*old(self)
            }),
    {
        self.save.recv_sender = sender;
        self.save.recv_operation = operation;
        self.save.recv_length = length;
        self.save.recv_response_capacity = capacity;
        self.save.recv_lease_count = leases;
    }

    /// Write a recoverable error code back to the task; it keeps running and
    /// sees the failure as a return value.
    pub fn set_error_response(&mut self, code: u32)
        ensures
            *final(self) == (Task {
                save: SavedState { response_code: code, response_length: 0, ..old(self).save },
                ..*old(self)
            }),
    {
        self.save.response_code = code;
        self.save.response_length = 0;
    }

    /// Write a response code and payload length back to the task.
    pub fn set_response_and_length(&mut self, code: u32, length: u32)
        ensures
            *final(self) == (Task {
                save: SavedState { response_code: code, response_length: length, ..old(self).save },
                ..*old(self)
            }),
    {
        self.save.response_code = code;
        self.save.response_length = length;
    }

    /// Answer a BORROW-INFO: the lease's raw attribute bits and its length.
    pub fn set_borrow_info(&mut self, attributes: u32, length: u32)
        ensures
            *final(self) == (Task {
                save: SavedState {
                    response_code: 0,
                    response_length: length,
                    response_attributes: attributes,
                    ..old(self).save
                },
                ..*old(self)
            }),
    {
        self.save.response_code = 0;
        self.save.response_length = length;
        self.save.response_attributes = attributes;
    }

    /// Arm or disarm the task's single pending timer; a new setting replaces
    /// any prior one.
    pub fn set_timer(&mut self, deadline: Option<u64>, to_post: u32)
        ensures
            *final(self) == (Task { timer: TimerState { deadline, to_post }, ..*old(self) }),
    {
        self.timer = TimerState { deadline, to_post };
    }

    /// OR bits into the task's pending set; if the task is blocked in receive
    /// with a mask overlapping them, wake it at once with an artificial
    /// message from the kernel. Reports whether it woke.
    pub fn post(&mut self, bits: u32) -> (woke: bool)
        ensures
            woke == task_post_wakes(*old(self), bits),
            *final(self) == task_after_post(*old(self), bits),
    {
        self.notifications = self.notifications | bits;
        match self.state {
            TaskState::Healthy(SchedState::InRecv(_)) => {
                let firing = self.notifications & self.notification_mask;
                if firing != 0 {
                    self.set_recv_result(TaskId::kernel(), firing, 0, 0, 0);
                    self.acknowledge_notifications();
                    self.state = TaskState::Healthy(SchedState::Runnable);
                    true
                } else {
                    false
                }
            }
            _ => false,
        }
    }
}

/// Does posting `bits` wake the task out of a receive?
pub open spec fn task_post_wakes(t: Task, bits: u32) -> bool {
    &&& t.state matches TaskState::Healthy(SchedState::InRecv(_))
    &&& (t.notifications | bits) & t.notification_mask != 0
}

/// The exact task value after `bits` are posted to it.
pub open spec fn task_after_post(t: Task, bits: u32) -> Task {
    let pending = t.notifications | bits;
    if task_post_wakes(t, bits) {
        let firing = pending & t.notification_mask;
        Task {
            notifications: pending & !t.notification_mask,
            state: TaskState::Healthy(SchedState::Runnable),
            save: recv_stamped(t.save, TaskId { index: KERNEL_INDEX, generation: 0 }, firing, 0, 0, 0),
            ..t
        }
    } else {
        Task { notifications: pending, ..t }
    }
}

/// A saved state with the receive-result fields stamped and all else kept.
pub open spec fn recv_stamped(save: SavedState, sender: TaskId, operation: u32, length: u32, capacity: u32, leases: u32) -> SavedState {
    SavedState {
        recv_sender: sender,
        recv_operation: operation,
        recv_length: length,
        recv_response_capacity: capacity,
        recv_lease_count: leases,
        ..save
    }
}

/// The whole table is well formed: few enough slots that every index fits a
/// `TaskId`, and every region fits the address space.
pub open spec fn table_wf(tasks: Seq<Task>) -> bool {
    &&& tasks.len() <= 0xffff
    &&& forall|i: int| 0 <= i < tasks.len() ==> #[trigger] tasks[i].wf()
}

/// A table change that leaves every slot's region where it was cannot break
/// table well-formedness: only states, saved registers, masks, timers and
/// region contents move during a syscall.
pub proof fn lemma_table_wf_preserved(t0: Seq<Task>, t1: Seq<Task>)
    requires
        table_wf(t0),
        t1.len() == t0.len(),
        forall|j: int| 0 <= j < t1.len() ==> (#[trigger] t1[j]).mem_base == t0[j].mem_base
            && t1[j].mem@.len() == t0[j].mem@.len(),
    ensures
        table_wf(t1),
{
    assert forall|j: int| 0 <= j < t1.len() implies (#[trigger] t1[j]).wf() by {
        assert(t0[j].wf());
    }
}

/// Mutable access to one table slot.
pub fn task_mut(tasks: &mut Vec<Task>, i: usize) -> (t: &mut Task)
    requires
        i < old(tasks).len(),
    ensures
        *t == old(tasks)@[i as int],
        final(tasks)@ == old(tasks)@.update(i as int, *final(t)),
{
    &mut tasks[i]
}

/// What a table scan is looking for.
#[derive(Clone, Copy, Debug, PartialEq, Eq, Structural)]
pub enum ScanGoal {
    /// A healthy task ready to run.
    Runnable,
    /// A healthy task blocked sending to the given slot.
    SendingTo(usize),
}

pub open spec fn goal_matches(g: ScanGoal, t: Task) -> bool {
    match g {
        ScanGoal::Runnable => t.state == TaskState::Healthy(SchedState::Runnable),
        ScanGoal::SendingTo(callee) => t.state == TaskState::Healthy(SchedState::InSend(callee)),
    }
}

fn goal_test(g: ScanGoal, t: &Task) -> (r: bool)
    ensures
        r == goal_matches(g, *t),
{
    match g {
        ScanGoal::Runnable => matches!(t.state, TaskState::Healthy(SchedState::Runnable)),
        ScanGoal::SendingTo(callee) => match t.state {
            TaskState::Healthy(SchedState::InSend(x)) => x == callee,
            _ => false,
        },
    }
}

/// Position of slot `i` in a scan that starts just past `last` and wraps:
/// slot `last + 1` has position 0, slot `last` is visited last.
pub open spec fn scan_off(last: int, len: int, i: int) -> int {
    if i > last {
        i - last - 1
    } else {
        i + len - last - 1
    }
}

/// Slot `i` is what a priority-ordered scan from just past `last` picks: it
/// matches, no match has a better (numerically lower) priority, and among
/// equal priorities none comes earlier in scan order.
pub open spec fn scan_picks(tasks: Seq<Task>, last: int, g: ScanGoal, i: int) -> bool {
    &&& 0 <= i < tasks.len()
    &&& goal_matches(g, tasks[i])
    &&& forall|j: int| 0 <= j < tasks.len() && #[trigger] goal_matches(g, tasks[j])
        ==> tasks[i].priority < tasks[j].priority
            || (tasks[i].priority == tasks[j].priority
                && scan_off(last, tasks.len() as int, i) <= scan_off(last, tasks.len() as int, j))
}

/// Find the next matching slot in priority order, starting just past `last`
/// and wrapping. Repeated scans that resume from the previous pick make
/// monotonic progress, so a fault-retry loop cannot spin on one permanently
/// faulty candidate.
pub fn priority_scan(last: usize, tasks: &Vec<Task>, goal: ScanGoal) -> (r: Option<usize>)
    requires
        last < tasks@.len(),
        tasks@.len() <= 0xffff,
    ensures
        r is None ==> forall|j: int| 0 <= j < tasks@.len() ==> !goal_matches(goal, #[trigger] tasks@[j]),
        r matches Some(i) ==> scan_picks(tasks@, last as int, goal, i as int),
{
    let len = tasks.len();
    let mut best: Option<usize> = None;
    let mut k: usize = 0;
    while k < len
        invariant
            len == tasks@.len(),
            last < len,
            len <= 0xffff,
            k <= len,
            best is None ==> forall|j: int|
                0 <= j < len && scan_off(last as int, len as int, j) < k
                    ==> !goal_matches(goal, #[trigger] tasks@[j]),
            best matches Some(b) ==> {
                &&& b < len
                &&& scan_off(last as int, len as int, b as int) < k
                &&& goal_matches(goal, tasks@[b as int])
                &&& forall|j: int|
                    0 <= j < len && scan_off(last as int, len as int, j) < k
                        && #[trigger] goal_matches(goal, tasks@[j])
                        ==> tasks@[b as int].priority < tasks@[j].priority
                            || (tasks@[b as int].priority == tasks@[j].priority
                                && scan_off(last as int, len as int, b as int)
                                    <= scan_off(last as int, len as int, j))
            },
        decreases len - k,
    {
        let idx = if last + 1 + k >= len {
            last + 1 + k - len
        } else {
            last + 1 + k
        };
        proof {
            assert(scan_off(last as int, len as int, idx as int) == k);
            assert forall|j: int|
                0 <= j < len && scan_off(last as int, len as int, j) == k implies j == idx as int
            by {
            }
        }
        if goal_test(goal, &tasks[idx]) {
            best = match best {
                None => Some(idx),
                Some(b) => {
                    if tasks[idx].priority < tasks[b].priority {
                        Some(idx)
                    } else {
                        Some(b)
                    }
                }
            };
        }
        k = k + 1;
    }
    best
}

/// Pick the task to run when the current one cannot continue: the
/// highest-priority runnable task, scanning from just past `current`.
/// `None` means nothing at all is runnable.
pub fn select(current: usize, tasks: &Vec<Task>) -> (r: Option<usize>)
    requires
        current < tasks@.len(),
        tasks@.len() <= 0xffff,
    ensures
        r is None ==> forall|j: int|
            0 <= j < tasks@.len() ==> !goal_matches(ScanGoal::Runnable, #[trigger] tasks@[j]),
        r matches Some(i) ==> scan_picks(tasks@, current as int, ScanGoal::Runnable, i as int),
{
    priority_scan(current, tasks, ScanGoal::Runnable)
}

/// The identity resolves: the slot exists and holds the named generation.
pub open spec fn id_resolves(tasks: Seq<Task>, id: TaskId) -> bool {
    id.index < tasks.len() && tasks[id.index as int].generation == id.generation
}

/// Validate a task identity against the live table.
///
/// Gates every syscall argument that names another task. Both an index
/// outside the table and a generation that no longer matches are an ordinary
/// recoverable "dead or invalid recipient" condition, never a fault: stale
/// or garbled identities are something any honest task can hold after a peer
/// restarts.
pub fn check_task_id_against_table(tasks: &Vec<Task>, id: TaskId) -> (r: Result<usize, crate::err::UserError>)
    ensures
        !id_resolves(tasks@, id) ==> r == Err::<usize, _>(crate::err::UserError::Recoverable(DEAD)),
        id_resolves(tasks@, id) ==> r == Ok::<usize, crate::err::UserError>(id.index as usize),
{
    let index = id.index as usize;
    if index >= tasks.len() {
        Err(crate::err::UserError::Recoverable(DEAD))
    } else if tasks[index].generation != id.generation {
        Err(crate::err::UserError::Recoverable(DEAD))
    } else {
        Ok(index)
    }
}

} // verus!
