//! Submission and completion queue entries as the runtime models them.
//!
//! A completion entry carries exactly the three fields the runtime reads:
//! the user-data value that routes it back to its slot, the kernel result,
//! and the completion flags. A submission entry is a pointer-free
//! description of the requested operation; the caller that owns the real
//! ring encodes it, together with the buffer addresses it holds, into the
//! kernel's wire format.

use vstd::prelude::*;

verus! {

/// Completion-flag bit announcing that more completions will follow for the
/// same operation (multishot).
pub const MORE_FLAG: u32 = 2;

/// Whether completion flags announce further completions for the operation.
pub open spec fn has_more(flags: u32) -> bool {
    flags & MORE_FLAG != 0
}

/// Relies on `io_uring::cqueue::more`: it reports exactly the
/// `IORING_CQE_F_MORE` bit, which is `1 << 1` on every architecture the
/// crate supports.
#[verifier::external_body]
fn cqueue_more(flags: u32) -> (r: bool)
    ensures
        r == has_more(flags),
{
    io_uring::cqueue::more(flags)
}

/// Whether more completions will follow the one that carried these flags.
pub fn more(flags: u32) -> (r: bool)
    ensures
        r == has_more(flags),
{
    cqueue_more(flags)
}

/// A completion queue entry (CQE), reduced to the fields the runtime reads.
#[derive(Clone, Copy, Debug, PartialEq, Eq, Structural)]
pub struct Cqe {
    /// The user-data value submitted with the operation; the kernel echoes
    /// it back so completions can be routed to their slot.
    pub user_data: u64,
    /// The operation's result: a count or descriptor when non-negative, a
    /// negated OS error code when negative.
    pub result: i32,
    /// Completion flags; see [`has_more`].
    pub flags: u32,
}

/// How a shutdown submission closes the socket.
#[derive(Clone, Copy, Debug, PartialEq, Eq, Structural)]
pub enum ShutdownHow {
    /// Shut down the receiving half.
    ReadPart,
    /// Shut down the sending half.
    WritePart,
    /// Shut down both halves.
    Both,
}

/// Which readiness a poll submission waits for.
#[derive(Clone, Copy, Debug, PartialEq, Eq, Structural)]
pub enum PollInterest {
    /// Readable readiness (`POLLIN`).
    Readable,
    /// Writable readiness (`POLLOUT`).
    Writable,
}

/// The operation a submission queue entry (SQE) requests, without the
/// buffer addresses: those stay with the owner of the real ring, which
/// pairs them back up by user data when encoding the entry.
#[derive(Clone, Copy, Debug, PartialEq, Eq, Structural)]
pub enum SqeOp {
    /// Read up to `len` bytes from `fd` into the submitter's buffer tail.
    Read { fd: i32, len: u32 },
    /// Write `len` bytes from the submitter's buffer to `fd`.
    Write { fd: i32, len: u32 },
    /// Move up to `len` bytes from `fd_in` to `fd_out` inside the kernel.
    Splice { fd_in: i32, fd_out: i32, len: u32 },
    /// Accept one connection on the listening socket `fd`.
    Accept { fd: i32, nonblocking: bool, close_on_exec: bool },
    /// Shut down the socket `fd`.
    Shutdown { fd: i32, how: ShutdownHow },
    /// Release the kernel handle behind `fd`.
    Close { fd: i32 },
    /// Wait until `fd` reports the given readiness.
    PollAdd { fd: i32, interest: PollInterest },
    /// Ask the kernel to cancel the in-flight operation submitted with
    /// user data `target`.
    Cancel { target: u64 },
    /// An entry the caller built in the kernel's wire format already; the
    /// runtime only routes its completions.
    Passthrough,
}

/// A submission queue entry: the requested operation plus the user-data
/// value the reactor stamps on it before queueing.
#[derive(Clone, Copy, Debug, PartialEq, Eq, Structural)]
pub struct Sqe {
    /// The requested operation.
    pub op: SqeOp,
    /// Routes completions back to the submitting slot.
    pub user_data: u64,
}

impl Sqe {
    /// A fresh entry for `op`; the reactor overwrites the user data at
    /// submission time.
    pub fn new(op: SqeOp) -> (r: Sqe)
        ensures
            r.op == op,
            r.user_data == 0,
    {
        Sqe { op, user_data: 0 }
    }
}

/// A failed operation: the completion entry carried a negative result.
/// `code` keeps that raw negative value; the OS error number is its
/// negation.
#[derive(Clone, Copy, Debug, PartialEq, Eq, Structural)]
pub struct OpError {
    /// The completion's raw result, always negative.
    pub code: i32,
}

/// The submission ring was full and flushing it to the kernel failed, so
/// the entry could not be queued.
#[derive(Clone, Copy, Debug, PartialEq, Eq, Structural)]
pub enum SubmitError {
    /// No room was left for the entry after one flush-and-retry.
    SubmissionFull,
}

/// `n` clipped to the range of the 32-bit length field submissions carry.
pub open spec fn clipped_u32(n: int) -> u32 {
    if 0 <= n <= u32::MAX {
        n as u32
    } else {
        u32::MAX
    }
}

/// Interpret a completion whose non-negative result is a byte or item
/// count: reads, writes, splices.
pub fn interpret_count(entry: Cqe) -> (r: Result<usize, OpError>)
    ensures
        entry.result >= 0 ==> r == Ok::<usize, OpError>(entry.result as usize),
        entry.result < 0 ==> r == Err::<usize, OpError>(OpError { code: entry.result }),
{
    if entry.result >= 0 {
        Ok(entry.result as usize)
    } else {
        Err(OpError { code: entry.result })
    }
}

/// Interpret a completion that only signals success or failure: close,
/// shutdown, cancel.
pub fn interpret_unit(entry: Cqe) -> (r: Result<(), OpError>)
    ensures
        entry.result >= 0 ==> r == Ok::<(), OpError>(()),
        entry.result < 0 ==> r == Err::<(), OpError>(OpError { code: entry.result }),
{
    if entry.result >= 0 {
        Ok(())
    } else {
        Err(OpError { code: entry.result })
    }
}

/// Interpret a completion whose non-negative result is a new file
/// descriptor: accept.
pub fn interpret_fd(entry: Cqe) -> (r: Result<i32, OpError>)
    ensures
        entry.result >= 0 ==> r == Ok::<i32, OpError>(entry.result),
        entry.result < 0 ==> r == Err::<i32, OpError>(OpError { code: entry.result }),
{
    if entry.result >= 0 {
        Ok(entry.result)
    } else {
        Err(OpError { code: entry.result })
    }
}

} // verus!
