//! Validated memory regions, leases, and the cross-task byte copy that every
//! IPC operation builds on.

use vstd::prelude::*;

use crate::err::InteractFault;
use crate::task::{FaultInfo, FaultSource, Task, UsageError};

verus! {

/// Lease attribute bit: the borrower may read the leased bytes.
pub const LEASE_READ: u32 = 1;

/// Lease attribute bit: the borrower may write the leased bytes.
pub const LEASE_WRITE: u32 = 2;

/// Size in bytes of one lease-table entry as laid out in the lender's memory:
/// three 32-bit little-endian words (attributes, base address, length).
pub const LEASE_SIZE: u32 = 12;

/// A claimed memory slice: a base address and a byte length. Whether the
/// owning task may actually touch it is checked separately, against the
/// task's region, on every use.
#[derive(Clone, Copy, Debug, PartialEq, Eq, Structural)]
pub struct USlice {
    pub base: u32,
    pub len: u32,
}

/// A raw (base, length) pair names a slice at all — it does not wrap around
/// the end of the address space.
pub open spec fn slice_arg_ok(base: u32, len: u32) -> bool {
    base + len <= 0x1_0000_0000
}

impl USlice {
    /// Build a slice from raw syscall arguments, rejecting a wrapping pair.
    pub fn from_raw(base: u32, len: u32) -> (r: Result<USlice, UsageError>)
        ensures
            slice_arg_ok(base, len) ==> r == Ok::<USlice, UsageError>(USlice { base, len }),
            !slice_arg_ok(base, len) ==> r == Err::<USlice, UsageError>(UsageError::InvalidSlice),
    {
        if (base as u64) + (len as u64) <= 0x1_0000_0000u64 {
            Ok(USlice { base, len })
        } else {
            Err(UsageError::InvalidSlice)
        }
    }
}

/// An ephemeral lease descriptor, decoded from an entry of the lender's
/// lease table and possibly advanced by a borrower-supplied offset. It exists
/// only while the lender is blocked in reply to the borrower.
#[derive(Clone, Copy, Debug, PartialEq, Eq, Structural)]
pub struct ULease {
    pub attributes: u32,
    pub base_address: u32,
    pub length: u32,
}

impl ULease {
    /// The leased region as a plain slice claim.
    pub fn as_slice(&self) -> (r: USlice)
        ensures
            r == (USlice { base: self.base_address, len: self.length }),
    {
        USlice { base: self.base_address, len: self.length }
    }
}

/// The bytes of `s` inside `t`'s region. Meaningful when `t` can access `s`;
/// an empty slice has no bytes wherever it points.
pub open spec fn slice_bytes(t: Task, s: USlice) -> Seq<u8> {
    if s.len == 0 {
        Seq::<u8>::empty()
    } else {
        t.mem@.subrange(s.base - t.mem_base, s.base - t.mem_base + s.len)
    }
}

/// `m` with `b` written at offset `off`; writing nothing changes nothing.
pub open spec fn write_view(m: Seq<u8>, off: int, b: Seq<u8>) -> Seq<u8> {
    if b.len() == 0 {
        m
    } else {
        m.take(off) + b + m.skip(off + b.len())
    }
}

/// `new_t` is `old_t` with exactly `bytes` written at slice `ts` of its
/// region and every other field kept; the region itself never changes shape.
pub open spec fn is_task_after_copy(old_t: Task, ts: USlice, bytes: Seq<u8>, new_t: Task) -> bool {
    &&& new_t == (Task { mem: new_t.mem, ..old_t })
    &&& new_t.mem@ == write_view(old_t.mem@, ts.base - old_t.mem_base, bytes)
    &&& new_t.mem@.len() == old_t.mem@.len()
}

/// The fault assignment a copy between these two claims would produce:
/// each side that cannot access its own claim is blamed, independently.
pub open spec fn copy_fault(src: Task, fs: USlice, dst: Task, ts: USlice) -> InteractFault {
    InteractFault {
        src: if !src.spec_can_read(fs) {
            Some(FaultInfo::MemoryAccess { address: Some(fs.base), source: FaultSource::Kernel })
        } else {
            None
        },
        dst: if !dst.spec_can_write(ts) {
            Some(FaultInfo::MemoryAccess { address: Some(ts.base), source: FaultSource::Kernel })
        } else {
            None
        },
    }
}

/// Both sides of a copy check out.
pub open spec fn copy_allowed(src: Task, fs: USlice, dst: Task, ts: USlice) -> bool {
    src.spec_can_read(fs) && dst.spec_can_write(ts)
}

pub open spec fn min32(a: u32, b: u32) -> u32 {
    if a <= b {
        a
    } else {
        b
    }
}

/// A 32-bit word assembled from four little-endian bytes.
pub open spec fn le32(b0: u8, b1: u8, b2: u8, b3: u8) -> u32 {
    (b0 as u32 + (b1 as u32) * 0x100 + (b2 as u32) * 0x1_0000 + (b3 as u32) * 0x100_0000) as u32
}

/// The lease stored at entry `i` of the lease table `t` exposed with its
/// pending SEND: three little-endian words read out of `t`'s own memory.
/// Meaningful when the table is well formed, readable, and `i` in range.
pub open spec fn lease_at(t: Task, i: int) -> ULease {
    let off = t.save.send_lease_base - t.mem_base + 12 * i;
    ULease {
        attributes: le32(t.mem@[off], t.mem@[off + 1], t.mem@[off + 2], t.mem@[off + 3]),
        base_address: le32(t.mem@[off + 4], t.mem@[off + 5], t.mem@[off + 6], t.mem@[off + 7]),
        length: le32(t.mem@[off + 8], t.mem@[off + 9], t.mem@[off + 10], t.mem@[off + 11]),
    }
}

fn read_u32_le(mem: &Vec<u8>, off: usize) -> (r: u32)
    requires
        off + 4 <= mem@.len(),
    ensures
        r == le32(mem@[off as int], mem@[off + 1], mem@[off + 2], mem@[off + 3]),
{
    let len: usize = mem.len();
    assert(off + 4 <= len);
    let b0 = mem[off] as u32;
    let b1 = mem[off + 1] as u32;
    let b2 = mem[off + 2] as u32;
    let b3 = mem[off + 3] as u32;
    b0 + b1 * 0x100 + b2 * 0x1_0000 + b3 * 0x100_0000
}

/// Read lease entry `i` out of the lease table that `t` exposed. The caller
/// has already established that the whole table lies in memory `t` may read,
/// so the twelve bytes exist.
pub fn read_lease(t: &Task, i: u32) -> (r: ULease)
    requires
        t.wf(),
        t.save.lease_table_ok(),
        i < t.save.send_lease_count,
        t.spec_can_read(t.save.lease_table_slice()),
    ensures
        r == lease_at(*t, i as int),
{
    proof {
        // Twelve times the entry count stays below the address-space size,
        // so the byte length of the table does not truncate.
        assert(t.save.send_lease_count <= 0x1555_5555);
        assert(t.save.send_lease_count * 12 <= 0xffff_fffc);
        assert(t.save.lease_table_slice().len == t.save.send_lease_count * 12);
        assert(t.save.lease_table_slice().len > 0);
    }
    let rel = (t.save.send_lease_base - t.mem_base) as usize;
    let off = rel + (i as usize) * 12;
    proof {
        assert(off + 12 <= t.mem@.len());
    }
    ULease {
        attributes: read_u32_le(&t.mem, off),
        base_address: read_u32_le(&t.mem, off + 4),
        length: read_u32_le(&t.mem, off + 8),
    }
}

/// The lease advanced by a borrower-supplied offset: the base moves forward
/// (wrapping, like the address arithmetic it stands for), the length
/// shrinks. Meaningful when the offset does not exceed the length.
pub open spec fn adjusted_lease(l: ULease, offset: u32) -> ULease {
    ULease {
        attributes: l.attributes,
        base_address: vstd::wrapping::u32_specs::wrapping_add(l.base_address, offset),
        length: (l.length - offset) as u32,
    }
}

/// Read `n` bytes of `src` starting at `off` into a fresh vector.
fn read_bytes(src: &Vec<u8>, off: usize, n: usize) -> (r: Vec<u8>)
    requires
        off + n <= src@.len(),
    ensures
        r@ == src@.subrange(off as int, off + n),
{
    let src_len: usize = src.len();
    let mut r: Vec<u8> = Vec::new();
    let mut i: usize = 0;
    while i < n
        invariant
            i <= n,
            off + n <= src@.len(),
            src@.len() == src_len,
            r@ == src@.subrange(off as int, off + i),
        decreases n - i,
    {
        r.push(src[off + i]);
        i = i + 1;
        proof {
            assert(r@ =~= src@.subrange(off as int, off + i));
        }
    }
    r
}

/// Overwrite `dst[off .. off + data.len())` with `data`.
fn write_bytes(dst: &mut Vec<u8>, off: usize, data: &Vec<u8>)
    requires
        off + data@.len() <= old(dst)@.len(),
    ensures
        final(dst)@ == write_view(old(dst)@, off as int, data@),
{
    let n = data.len();
    let d_len: usize = dst.len();
    let mut i: usize = 0;
    while i < n
        invariant
            i <= n,
            n == data@.len(),
            off + n <= old(dst)@.len(),
            old(dst)@.len() == d_len,
            dst@.len() == old(dst)@.len(),
            dst@ == old(dst)@.take(off as int) + data@.take(i as int) + old(dst)@.skip(off + i),
        decreases n - i,
    {
        dst.set(off + i, data[i]);
        i = i + 1;
        proof {
            assert(dst@ =~= old(dst)@.take(off as int) + data@.take(i as int) + old(dst)@.skip(off + i));
        }
    }
    proof {
        if n == 0 {
            assert(dst@ =~= old(dst)@);
        } else {
            assert(data@.take(n as int) =~= data@);
            assert(dst@ =~= write_view(old(dst)@, off as int, data@));
        }
    }
}

/// Copy `min(len(fs), len(ts))` bytes from slice `fs` of task `from` to slice
/// `ts` of task `to`, re-checking both claims against the current access
/// rights of their owners first. On any violation nothing is copied and the
/// outcome says which side (or both) is to blame. This primitive knows
/// nothing of IPC; it is pure memory-safety plumbing.
pub fn safe_copy(tasks: &mut Vec<Task>, from: usize, from_slice: USlice, to: usize, to_slice: USlice) -> (r: Result<u32, InteractFault>)
    requires
        from < old(tasks)@.len(),
        to < old(tasks)@.len(),
        old(tasks)@[from as int].wf(),
        old(tasks)@[to as int].wf(),
    ensures
        final(tasks)@.len() == old(tasks)@.len(),
        crate::task::table_wf(old(tasks)@) ==> crate::task::table_wf(final(tasks)@),
        !copy_allowed(old(tasks)@[from as int], from_slice, old(tasks)@[to as int], to_slice) ==> {
            &&& r == Err::<u32, InteractFault>(copy_fault(
                old(tasks)@[from as int], from_slice, old(tasks)@[to as int], to_slice))
            &&& final(tasks)@ == old(tasks)@
        },
        copy_allowed(old(tasks)@[from as int], from_slice, old(tasks)@[to as int], to_slice) ==> {
            &&& r == Ok::<u32, InteractFault>(min32(from_slice.len, to_slice.len))
            &&& forall|j: int| 0 <= j < old(tasks)@.len() && j != to ==> final(tasks)@[j] == old(tasks)@[j]
            &&& is_task_after_copy(
                old(tasks)@[to as int],
                to_slice,
                slice_bytes(old(tasks)@[from as int], from_slice).take(min32(from_slice.len, to_slice.len) as int),
                final(tasks)@[to as int],
            )
        },
{
    let src_ok = tasks[from].can_read(&from_slice);
    let dst_ok = tasks[to].can_write(&to_slice);
    if !src_ok || !dst_ok {
        return Err(InteractFault {
            src: if !src_ok {
                Some(FaultInfo::MemoryAccess { address: Some(from_slice.base), source: FaultSource::Kernel })
            } else {
                None
            },
            dst: if !dst_ok {
                Some(FaultInfo::MemoryAccess { address: Some(to_slice.base), source: FaultSource::Kernel })
            } else {
                None
            },
        });
    }
    let n = if from_slice.len <= to_slice.len {
        from_slice.len
    } else {
        to_slice.len
    };
    if n == 0 {
        proof {
            assert(final(tasks)@ =~= old(tasks)@);
        }
        return Ok(0);
    }
    let src_off = (from_slice.base - tasks[from].mem_base) as usize;
    let buf = read_bytes(&tasks[from].mem, src_off, n as usize);
    let dst_off = (to_slice.base - tasks[to].mem_base) as usize;
    let t = crate::task::task_mut(tasks, to);
    write_bytes(&mut t.mem, dst_off, &buf);
    proof {
        assert(buf@ =~= slice_bytes(old(tasks)@[from as int], from_slice).take(n as int));
    }
    Ok(n)
}

} // verus!
