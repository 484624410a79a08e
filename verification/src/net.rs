//! Socket catalog operations: accept and shutdown.

use vstd::prelude::*;

use crate::entries::{interpret_fd, interpret_unit, Cqe, OpError, ShutdownHow, Sqe, SqeOp};
use crate::operation::Operation;

verus! {

/// Accept one connection on a listening socket. The completion's
/// non-negative result is the accepted connection's descriptor; the peer
/// address the kernel wrote stays with the host that owns the address
/// storage the submission pointed at.
pub struct Accept {
    socket: i32,
    nonblocking: bool,
    close_on_exec: bool,
}

impl Accept {
    /// The listening socket.
    pub closed spec fn fd(self) -> i32 {
        self.socket
    }

    /// Whether the accepted socket is made non-blocking.
    pub closed spec fn is_non_blocking(self) -> bool {
        self.nonblocking
    }

    /// Whether the accepted socket is closed on exec.
    pub closed spec fn is_close_on_exec(self) -> bool {
        self.close_on_exec
    }

    /// An accept on `socket`, with both socket flags clear.
    pub fn new(socket: i32) -> (r: Accept)
        ensures
            r.fd() == socket,
            !r.is_non_blocking(),
            !r.is_close_on_exec(),
    {
        Accept { socket, nonblocking: false, close_on_exec: false }
    }

    /// Request a non-blocking accepted socket.
    pub fn non_blocking_socket(self) -> (r: Accept)
        ensures
            r.fd() == self.fd(),
            r.is_non_blocking(),
            r.is_close_on_exec() == self.is_close_on_exec(),
    {
        Accept { nonblocking: true, ..self }
    }

    /// Request that the accepted socket be closed on exec.
    pub fn close_socket_on_exec(self) -> (r: Accept)
        ensures
            r.fd() == self.fd(),
            r.is_non_blocking() == self.is_non_blocking(),
            r.is_close_on_exec(),
    {
        Accept { close_on_exec: true, ..self }
    }
}

impl Operation for Accept {
    type Output = i32;

    open spec fn submission_view(&self) -> SqeOp {
        SqeOp::Accept {
            fd: self.fd(),
            nonblocking: self.is_non_blocking(),
            close_on_exec: self.is_close_on_exec(),
        }
    }

    open spec fn output_view(&self, entry: Cqe) -> Result<i32, OpError> {
        if entry.result >= 0 {
            Ok(entry.result)
        } else {
            Err(OpError { code: entry.result })
        }
    }

    fn build_submission(&self) -> (s: Sqe)
        ensures
            s.op == self.submission_view(),
    {
        Sqe::new(
            SqeOp::Accept {
                fd: self.socket,
                nonblocking: self.nonblocking,
                close_on_exec: self.close_on_exec,
            },
        )
    }

    fn process_completion(&mut self, entry: Cqe) -> (r: Result<i32, OpError>)
        ensures
            r == old(self).output_view(entry),
    {
        interpret_fd(entry)
    }
}

/// Shut down one or both halves of a connected socket.
pub struct Shutdown {
    socket: i32,
    how: ShutdownHow,
}

impl Shutdown {
    /// The socket being shut down.
    pub closed spec fn fd(self) -> i32 {
        self.socket
    }

    /// Which halves the shutdown closes.
    pub closed spec fn how(self) -> ShutdownHow {
        self.how
    }

    /// A shutdown of both halves of `socket`.
    pub fn new(socket: i32) -> (r: Shutdown)
        ensures
            r.fd() == socket,
            r.how() == ShutdownHow::Both,
    {
        Shutdown { socket, how: ShutdownHow::Both }
    }

    /// Shut down only the receiving half.
    pub fn read_part_only(self) -> (r: Shutdown)
        ensures
            r.fd() == self.fd(),
            r.how() == ShutdownHow::ReadPart,
    {
        Shutdown { how: ShutdownHow::ReadPart, ..self }
    }

    /// Shut down only the sending half.
    pub fn write_part_only(self) -> (r: Shutdown)
        ensures
            r.fd() == self.fd(),
            r.how() == ShutdownHow::WritePart,
    {
        Shutdown { how: ShutdownHow::WritePart, ..self }
    }
}

impl Operation for Shutdown {
    type Output = ();

    open spec fn submission_view(&self) -> SqeOp {
        SqeOp::Shutdown { fd: self.fd(), how: self.how() }
    }

    open spec fn output_view(&self, entry: Cqe) -> Result<(), OpError> {
        if entry.result >= 0 {
            Ok(())
        } else {
            Err(OpError { code: entry.result })
        }
    }

    fn build_submission(&self) -> (s: Sqe)
        ensures
            s.op == self.submission_view(),
    {
        Sqe::new(SqeOp::Shutdown { fd: self.socket, how: self.how })
    }

    fn process_completion(&mut self, entry: Cqe) -> (r: Result<(), OpError>)
        ensures
            r == old(self).output_view(entry),
    {
        interpret_unit(entry)
    }
}

} // verus!
