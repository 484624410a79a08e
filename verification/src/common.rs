//! Catalog operations with no I/O direction: raw pass-through, cancel, and
//! close.

use vstd::prelude::*;

use crate::entries::{interpret_unit, Cqe, OpError, Sqe, SqeOp};
use crate::operation::Operation;
use crate::reactor::OperationHandle;

verus! {

/// A pass-through operation: the caller supplies the submission entry, and
/// the completion entry is returned verbatim. The caller carries the
/// responsibility the catalog operations otherwise encode in their types:
/// whatever the entry references must stay valid until the terminal
/// completion.
pub struct Raw {
    submission: Sqe,
}

impl Raw {
    /// The entry the operation submits.
    pub closed spec fn submission(self) -> Sqe {
        self.submission
    }

    /// A pass-through of `submission`.
    pub fn new(submission: Sqe) -> (r: Raw)
        ensures
            r.submission() == submission,
    {
        Raw { submission }
    }
}

impl Operation for Raw {
    type Output = Cqe;

    open spec fn submission_view(&self) -> SqeOp {
        self.submission().op
    }

    open spec fn output_view(&self, entry: Cqe) -> Result<Cqe, OpError> {
        Ok(entry)
    }

    fn build_submission(&self) -> (s: Sqe)
        ensures
            s.op == self.submission_view(),
    {
        self.submission
    }

    fn process_completion(&mut self, entry: Cqe) -> (r: Result<Cqe, OpError>)
        ensures
            r == old(self).output_view(entry),
    {
        Ok(entry)
    }
}

/// Ask the kernel to cancel another in-flight operation, named by its
/// handle. The completion reports the cancellation outcome: success, or an
/// error such as not-found when the target already completed.
pub struct Cancel {
    operation: OperationHandle,
}

impl Cancel {
    /// The handle of the operation to cancel.
    pub closed spec fn target(self) -> OperationHandle {
        self.operation
    }

    /// A cancellation of the operation behind `operation`.
    pub fn new(operation: OperationHandle) -> (r: Cancel)
        ensures
            r.target() == operation,
    {
        Cancel { operation }
    }
}

impl Operation for Cancel {
    type Output = ();

    open spec fn submission_view(&self) -> SqeOp {
        SqeOp::Cancel { target: self.target().index() as u64 }
    }

    open spec fn output_view(&self, entry: Cqe) -> Result<(), OpError> {
        if entry.result >= 0 {
            Ok(())
        } else {
            Err(OpError { code: entry.result })
        }
    }

    fn build_submission(&self) -> (s: Sqe)
        ensures
            s.op == self.submission_view(),
    {
        Sqe::new(SqeOp::Cancel { target: self.operation.as_raw() as u64 })
    }

    fn process_completion(&mut self, entry: Cqe) -> (r: Result<(), OpError>)
        ensures
            r == old(self).output_view(entry),
    {
        interpret_unit(entry)
    }
}

/// Release the kernel handle behind a file descriptor. The operation
/// consumes the descriptor: after submission only the kernel may release
/// it, so no second close can race the operation.
pub struct Close {
    file: i32,
}

impl Close {
    /// The descriptor being closed.
    pub closed spec fn fd(self) -> i32 {
        self.file
    }

    /// A close of `file`, consuming it.
    pub fn new(file: i32) -> (r: Close)
        ensures
            r.fd() == file,
    {
        Close { file }
    }
}

impl Operation for Close {
    type Output = ();

    open spec fn submission_view(&self) -> SqeOp {
        SqeOp::Close { fd: self.fd() }
    }

    open spec fn output_view(&self, entry: Cqe) -> Result<(), OpError> {
        if entry.result >= 0 {
            Ok(())
        } else {
            Err(OpError { code: entry.result })
        }
    }

    fn build_submission(&self) -> (s: Sqe)
        ensures
            s.op == self.submission_view(),
    {
        Sqe::new(SqeOp::Close { fd: self.file })
    }

    fn process_completion(&mut self, entry: Cqe) -> (r: Result<(), OpError>)
        ensures
            r == old(self).output_view(entry),
    {
        interpret_unit(entry)
    }
}

} // verus!
