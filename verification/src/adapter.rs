//! The poll-fallback adapter: poll-style I/O over one file descriptor,
//! backed by the reactor.
//!
//! Reads take the caller's buffer per call, so the buffer cannot be pinned
//! for the kernel's lifetime; the adapter instead has the host issue a
//! best-effort synchronous read and falls back to a ring-submitted
//! readable-poll when the descriptor would block. Writes, shutdown and
//! close are true ring operations. Each direction keeps its own in-flight
//! handle, so concurrent read, write, shutdown and close polls never
//! collide, and shutdown first cancels whichever read or write is still in
//! flight.
//!
//! Every function here is a decision step: the host shell performs the
//! syscall or wakeup a step calls for and feeds the outcome back in.

use vstd::prelude::*;

use crate::entries::{Cqe, OpError, PollInterest, ShutdownHow, Sqe, SqeOp};
use crate::operation::{drives_operation, submits_operation};
use crate::reactor::{OperationHandle, Reactor};
use crate::table::Driven;

verus! {

/// How the host's best-effort syscall went, classified by the host from
/// the OS error: completed with a count, interrupted (EINTR), would block
/// (EAGAIN), or failed with another error.
#[derive(Clone, Copy, Debug, PartialEq, Eq, Structural)]
pub enum SysOutcome {
    /// The syscall transferred this many bytes.
    Done(usize),
    /// The syscall was interrupted; retry after a self-wake.
    Interrupted,
    /// The descriptor has nothing to offer yet; await readiness.
    WouldBlock,
    /// The syscall failed with this error.
    Failed(OpError),
}

/// Whether the in-flight readiness operation allows the next syscall
/// attempt.
#[derive(Clone, Copy, Debug, PartialEq, Eq, Structural)]
pub enum ReadyCheck {
    /// No operation is in flight, or the in-flight one completed cleanly:
    /// the host performs the syscall now.
    Proceed,
    /// Still waiting on the in-flight operation.
    Pending,
    /// The in-flight operation failed.
    Failed(OpError),
}

/// What a read poll decides after the syscall outcome is known.
#[derive(Clone, Copy, Debug, PartialEq, Eq, Structural)]
pub enum ReadStep {
    /// The read finished with this many bytes.
    Done(usize),
    /// Interrupted: the host wakes itself and reports pending.
    RetryLater,
    /// A readable-poll was submitted; the host reports pending.
    AwaitReadable,
    /// The read failed.
    Failed(OpError),
}

/// What a write, shutdown or close poll reports.
#[derive(Clone, Copy, Debug, PartialEq, Eq, Structural)]
pub enum OpStep {
    /// Submitted or still waiting.
    Pending,
    /// The cancel that guards a shutdown completed: the host wakes itself
    /// and reports pending, and the next poll submits the shutdown proper.
    Retry,
    /// The operation finished with this count.
    Done(usize),
    /// The operation failed.
    Failed(OpError),
}

/// Poll-style adapter state: the descriptor and one optional in-flight
/// handle per direction.
pub struct PollIo {
    file: i32,
    read: Option<OperationHandle>,
    write: Option<OperationHandle>,
    shutdown: Option<OperationHandle>,
    close: Option<OperationHandle>,
}

/// Whether `handle`, when present, names a live reactor slot.
pub open spec fn in_flight_ok<W>(reactor: Reactor<W>, handle: Option<OperationHandle>) -> bool {
    handle matches Some(h) ==> reactor.slot_live(h.index())
}

/// The claimed completion's verdict at `handle`'s slot, assuming the slot
/// is ripe; used to phrase what a drive-then-clear step reports.
pub open spec fn claimed_entry<W>(reactor: Reactor<W>, handle: OperationHandle) -> Driven {
    reactor.slot_models()[handle.index()].drive_verdict()
}

/// The submission one shutdown poll makes when none is in flight: a cancel
/// of the in-flight read, else a cancel of the in-flight write, else the
/// shutdown of the sending half itself.
pub open spec fn shutdown_submission(io: PollIo) -> SqeOp {
    match io.read_view() {
        Some(h) => SqeOp::Cancel { target: h.index() as u64 },
        None => match io.write_view() {
            Some(h) => SqeOp::Cancel { target: h.index() as u64 },
            None => SqeOp::Shutdown { fd: io.fd_view(), how: ShutdownHow::WritePart },
        },
    }
}

/// How a shutdown poll resolves the completion `e` it claimed: while a
/// read or write was being cancelled, the cancelled direction's handle is
/// cleared and the poll retries (so the next one submits the shutdown
/// proper); otherwise the shutdown itself finished. A negative result
/// fails the poll either way.
pub open spec fn shutdown_resolution(before: PollIo, after: PollIo, e: Cqe, r: OpStep) -> bool {
    &&& after.shutdown_view() is None
    &&& if before.read_view() is Some || before.write_view() is Some {
        &&& (if before.read_view() is Some {
            after.read_view() is None && after.write_view() == before.write_view()
        } else {
            after.read_view() == before.read_view() && after.write_view() is None
        })
        &&& r == (if e.result < 0 {
            OpStep::Failed(OpError { code: e.result })
        } else {
            OpStep::Retry
        })
    } else {
        &&& after.read_view() == before.read_view()
        &&& after.write_view() == before.write_view()
        &&& r == (if e.result < 0 {
            OpStep::Failed(OpError { code: e.result })
        } else {
            OpStep::Done(0)
        })
    }
}

impl PollIo {
    /// The descriptor the adapter drives.
    pub closed spec fn fd_view(self) -> i32 {
        self.file
    }

    /// The in-flight read-readiness handle.
    pub closed spec fn read_view(self) -> Option<OperationHandle> {
        self.read
    }

    /// The in-flight write handle.
    pub closed spec fn write_view(self) -> Option<OperationHandle> {
        self.write
    }

    /// The in-flight cancel-or-shutdown handle.
    pub closed spec fn shutdown_view(self) -> Option<OperationHandle> {
        self.shutdown
    }

    /// The in-flight close handle.
    pub closed spec fn close_view(self) -> Option<OperationHandle> {
        self.close
    }

    /// An adapter over `file` with nothing in flight.
    pub fn new(file: i32) -> (r: PollIo)
        ensures
            r.fd_view() == file,
            r.read_view() is None,
            r.write_view() is None,
            r.shutdown_view() is None,
            r.close_view() is None,
    {
        PollIo { file, read: None, write: None, shutdown: None, close: None }
    }

    /// The descriptor, for the host that performs the syscalls.
    pub fn fd(&self) -> (r: i32)
        ensures
            r == self.fd_view(),
    {
        self.file
    }

    /// First half of a read poll: drive the in-flight readable-poll, if
    /// any. On `Proceed` the host performs the synchronous read and feeds
    /// its outcome to [`PollIo::poll_read_outcome`].
    pub fn poll_read_ready<W>(&mut self, reactor: &mut Reactor<W>, waker: W) -> (r: ReadyCheck)
        requires
            old(reactor).wf(),
            in_flight_ok(*old(reactor), old(self).read_view()),
        ensures
            final(reactor).wf(),
            final(reactor).capacity_view() == old(reactor).capacity_view(),
            final(self).fd_view() == old(self).fd_view(),
            final(self).write_view() == old(self).write_view(),
            final(self).shutdown_view() == old(self).shutdown_view(),
            final(self).close_view() == old(self).close_view(),
            old(self).read_view() is None ==> r == ReadyCheck::Proceed && *final(reactor) == *old(reactor) && final(self).read_view() is None,
            old(self).read_view() matches Some(h) ==> drives_operation(
                *old(reactor),
                *final(reactor),
                h,
                waker,
            ) && (match claimed_entry(*old(reactor), h) {
                Driven::Pending => r == ReadyCheck::Pending && final(self).read_view() == old(self).read_view(),
                Driven::Ready(e) => final(self).read_view() is None && (if e.result < 0 {
                    r == ReadyCheck::Failed(OpError { code: e.result })
                } else {
                    r == ReadyCheck::Proceed
                }),
                Driven::ReadyAgain(e) => final(self).read_view() is None && (if e.result < 0 {
                    r == ReadyCheck::Failed(OpError { code: e.result })
                } else {
                    r == ReadyCheck::Proceed
                }),
            }),
    {
        match self.read {
            None => ReadyCheck::Proceed,
            Some(handle) => {
                match reactor.drive_operation(handle, waker) {
                    Driven::Pending => ReadyCheck::Pending,
                    Driven::Ready(entry) => {
                        self.read = None;
                        if entry.result < 0 {
                            ReadyCheck::Failed(OpError { code: entry.result })
                        } else {
                            ReadyCheck::Proceed
                        }
                    },
                    Driven::ReadyAgain(entry) => {
                        self.read = None;
                        if entry.result < 0 {
                            ReadyCheck::Failed(OpError { code: entry.result })
                        } else {
                            ReadyCheck::Proceed
                        }
                    },
                }
            },
        }
    }

    /// Second half of a read poll: act on the synchronous read's outcome.
    /// Success and real failures finish the poll; an interrupt asks the
    /// host to self-wake and retry; would-block submits a readable-poll on
    /// the ring and parks until readiness.
    pub fn poll_read_outcome<W>(
        &mut self,
        reactor: &mut Reactor<W>,
        waker: W,
        outcome: SysOutcome,
    ) -> (r: ReadStep)
        requires
            old(reactor).wf(),
            old(reactor).overflow_view() is None,
            old(reactor).has_room_spec(),
            old(self).read_view() is None,
        ensures
            final(reactor).wf(),
            final(reactor).capacity_view() == old(reactor).capacity_view(),
            final(reactor).overflow_view() is None,
            final(self).fd_view() == old(self).fd_view(),
            final(self).write_view() == old(self).write_view(),
            final(self).shutdown_view() == old(self).shutdown_view(),
            final(self).close_view() == old(self).close_view(),
            outcome matches SysOutcome::Done(count) ==> r == ReadStep::Done(count) && *final(reactor) == *old(reactor) && final(self).read_view() is None,
            outcome is Interrupted ==> r == ReadStep::RetryLater && *final(reactor) == *old(reactor)
                && final(self).read_view() is None,
            outcome is WouldBlock ==> r == ReadStep::AwaitReadable
                && final(self).read_view() is Some
                && submits_operation(
                *old(reactor),
                *final(reactor),
                SqeOp::PollAdd { fd: old(self).fd_view(), interest: PollInterest::Readable },
                final(self).read_view()->0,
                waker,
            ),
            outcome matches SysOutcome::Failed(e) ==> r == ReadStep::Failed(e) && *final(reactor)
                == *old(reactor) && final(self).read_view() is None,
    {
        match outcome {
            SysOutcome::Done(count) => ReadStep::Done(count),
            SysOutcome::Interrupted => ReadStep::RetryLater,
            SysOutcome::WouldBlock => {
                let entry = Sqe::new(
                    SqeOp::PollAdd { fd: self.file, interest: PollInterest::Readable },
                );
                let handle = reactor.submit_with_room(entry, waker);
                self.read = Some(handle);
                ReadStep::AwaitReadable
            },
            SysOutcome::Failed(error) => ReadStep::Failed(error),
        }
    }

    /// One write poll: drive the in-flight write if one exists, otherwise
    /// submit a write of `len` bytes (the host owns the bytes and encodes
    /// their address). Completion reports the kernel's count.
    pub fn poll_write<W>(&mut self, reactor: &mut Reactor<W>, waker: W, len: u32) -> (r: OpStep)
        requires
            old(reactor).wf(),
            old(reactor).overflow_view() is None,
            old(self).write_view() is None ==> old(reactor).has_room_spec(),
            in_flight_ok(*old(reactor), old(self).write_view()),
        ensures
            final(reactor).wf(),
            final(reactor).capacity_view() == old(reactor).capacity_view(),
            final(reactor).overflow_view() is None,
            final(self).fd_view() == old(self).fd_view(),
            final(self).read_view() == old(self).read_view(),
            final(self).shutdown_view() == old(self).shutdown_view(),
            final(self).close_view() == old(self).close_view(),
            old(self).write_view() is None ==> r == OpStep::Pending
                && final(self).write_view() is Some
                && submits_operation(
                *old(reactor),
                *final(reactor),
                SqeOp::Write { fd: old(self).fd_view(), len },
                final(self).write_view()->0,
                waker,
            ),
            old(self).write_view() matches Some(h) ==> drives_operation(
                *old(reactor),
                *final(reactor),
                h,
                waker,
            ) && (match claimed_entry(*old(reactor), h) {
                Driven::Pending => r == OpStep::Pending && final(self).write_view() == old(self).write_view(),
                Driven::Ready(e) => final(self).write_view() is None && (if e.result < 0 {
                    r == OpStep::Failed(OpError { code: e.result })
                } else {
                    r == OpStep::Done(e.result as usize)
                }),
                Driven::ReadyAgain(e) => final(self).write_view() is None && (if e.result < 0 {
                    r == OpStep::Failed(OpError { code: e.result })
                } else {
                    r == OpStep::Done(e.result as usize)
                }),
            }),
    {
        match self.write {
            None => {
                let entry = Sqe::new(SqeOp::Write { fd: self.file, len });
                let handle = reactor.submit_with_room(entry, waker);
                self.write = Some(handle);
                OpStep::Pending
            },
            Some(handle) => {
                match reactor.drive_operation(handle, waker) {
                    Driven::Pending => OpStep::Pending,
                    Driven::Ready(entry) => {
                        self.write = None;
                        if entry.result < 0 {
                            OpStep::Failed(OpError { code: entry.result })
                        } else {
                            OpStep::Done(entry.result as usize)
                        }
                    },
                    Driven::ReadyAgain(entry) => {
                        self.write = None;
                        if entry.result < 0 {
                            OpStep::Failed(OpError { code: entry.result })
                        } else {
                            OpStep::Done(entry.result as usize)
                        }
                    },
                }
            },
        }
    }

    /// One shutdown poll, with the compound cancel-first protocol: while a
    /// read or write is still in flight, first submit a cancel for it and
    /// await that cancel; once nothing is in flight, submit the shutdown of
    /// the sending half and await it.
    pub fn poll_shutdown<W>(&mut self, reactor: &mut Reactor<W>, waker: W) -> (r: OpStep)
        requires
            old(reactor).wf(),
            old(reactor).overflow_view() is None,
            old(self).shutdown_view() is None ==> old(reactor).has_room_spec(),
            old(self).shutdown_view() matches Some(h) ==> old(reactor).slot_live(h.index()),
        ensures
            final(reactor).wf(),
            final(reactor).capacity_view() == old(reactor).capacity_view(),
            final(reactor).overflow_view() is None,
            final(self).fd_view() == old(self).fd_view(),
            final(self).close_view() == old(self).close_view(),
            old(self).shutdown_view() is None ==> r == OpStep::Pending
                && final(self).shutdown_view() is Some
                && final(self).read_view() == old(self).read_view()
                && final(self).write_view() == old(self).write_view()
                && submits_operation(
                *old(reactor),
                *final(reactor),
                shutdown_submission(*old(self)),
                final(self).shutdown_view()->0,
                waker,
            ),
            old(self).shutdown_view() matches Some(h) ==> drives_operation(
                *old(reactor),
                *final(reactor),
                h,
                waker,
            ) && (match claimed_entry(*old(reactor), h) {
                Driven::Pending => r == OpStep::Pending && final(self).read_view() == old(self).read_view() && final(self).write_view() == old(self).write_view() && final(self).shutdown_view() == old(self).shutdown_view(),
                Driven::Ready(e) => shutdown_resolution(*old(self), *final(self), e, r),
                Driven::ReadyAgain(e) => shutdown_resolution(*old(self), *final(self), e, r),
            }),
    {
        let cancelling = self.read.is_some() || self.write.is_some();
        match self.shutdown {
            None => {
                let target: Option<OperationHandle> = if self.read.is_some() {
                    self.read
                } else if self.write.is_some() {
                    self.write
                } else {
                    None
                };
                match target {
                    Some(handle) => {
                        let entry = Sqe::new(
                            SqeOp::Cancel { target: handle.as_raw() as u64 },
                        );
                        let cancel_handle = reactor.submit_with_room(entry, waker);
                        self.shutdown = Some(cancel_handle);
                        OpStep::Pending
                    },
                    None => {
                        let entry = Sqe::new(
                            SqeOp::Shutdown {
                                fd: self.file,
                                how: ShutdownHow::WritePart,
                            },
                        );
                        let handle = reactor.submit_with_room(entry, waker);
                        self.shutdown = Some(handle);
                        OpStep::Pending
                    },
                }
            },
            Some(handle) => {
                match reactor.drive_operation(handle, waker) {
                    Driven::Pending => OpStep::Pending,
                    Driven::Ready(entry) => {
                        self.shutdown = None;
                        if cancelling {
                            if self.read.is_some() {
                                self.read = None;
                            } else {
                                self.write = None;
                            }
                            if entry.result < 0 {
                                OpStep::Failed(OpError { code: entry.result })
                            } else {
                                OpStep::Retry
                            }
                        } else {
                            if entry.result < 0 {
                                OpStep::Failed(OpError { code: entry.result })
                            } else {
                                OpStep::Done(0)
                            }
                        }
                    },
                    Driven::ReadyAgain(entry) => {
                        self.shutdown = None;
                        if cancelling {
                            if self.read.is_some() {
                                self.read = None;
                            } else {
                                self.write = None;
                            }
                            if entry.result < 0 {
                                OpStep::Failed(OpError { code: entry.result })
                            } else {
                                OpStep::Retry
                            }
                        } else {
                            if entry.result < 0 {
                                OpStep::Failed(OpError { code: entry.result })
                            } else {
                                OpStep::Done(0)
                            }
                        }
                    },
                }
            },
        }
    }

    /// One close poll: drive the in-flight close if one exists, otherwise
    /// submit a close of the descriptor.
    pub fn poll_close<W>(&mut self, reactor: &mut Reactor<W>, waker: W) -> (r: OpStep)
        requires
            old(reactor).wf(),
            old(reactor).overflow_view() is None,
            old(self).close_view() is None ==> old(reactor).has_room_spec(),
            in_flight_ok(*old(reactor), old(self).close_view()),
        ensures
            final(reactor).wf(),
            final(reactor).capacity_view() == old(reactor).capacity_view(),
            final(reactor).overflow_view() is None,
            final(self).fd_view() == old(self).fd_view(),
            final(self).read_view() == old(self).read_view(),
            final(self).write_view() == old(self).write_view(),
            final(self).shutdown_view() == old(self).shutdown_view(),
            old(self).close_view() is None ==> r == OpStep::Pending
                && final(self).close_view() is Some
                && submits_operation(
                *old(reactor),
                *final(reactor),
                SqeOp::Close { fd: old(self).fd_view() },
                final(self).close_view()->0,
                waker,
            ),
            old(self).close_view() matches Some(h) ==> drives_operation(
                *old(reactor),
                *final(reactor),
                h,
                waker,
            ) && (match claimed_entry(*old(reactor), h) {
                Driven::Pending => r == OpStep::Pending && final(self).close_view() == old(self).close_view(),
                Driven::Ready(e) => final(self).close_view() is None && (if e.result < 0 {
                    r == OpStep::Failed(OpError { code: e.result })
                } else {
                    r == OpStep::Done(0)
                }),
                Driven::ReadyAgain(e) => final(self).close_view() is None && (if e.result < 0 {
                    r == OpStep::Failed(OpError { code: e.result })
                } else {
                    r == OpStep::Done(0)
                }),
            }),
    {
        match self.close {
            None => {
                let entry = Sqe::new(SqeOp::Close { fd: self.file });
                let handle = reactor.submit_with_room(entry, waker);
                self.close = Some(handle);
                OpStep::Pending
            },
            Some(handle) => {
                match reactor.drive_operation(handle, waker) {
                    Driven::Pending => OpStep::Pending,
                    Driven::Ready(entry) => {
                        self.close = None;
                        if entry.result < 0 {
                            OpStep::Failed(OpError { code: entry.result })
                        } else {
                            OpStep::Done(0)
                        }
                    },
                    Driven::ReadyAgain(entry) => {
                        self.close = None;
                        if entry.result < 0 {
                            OpStep::Failed(OpError { code: entry.result })
                        } else {
                            OpStep::Done(0)
                        }
                    },
                }
            },
        }
    }
}

} // verus!
