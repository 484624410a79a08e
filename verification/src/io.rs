//! Byte-moving catalog operations: read, write, and splice.

use vstd::prelude::*;

use crate::entries::{clipped_u32, interpret_count, Cqe, OpError, Sqe, SqeOp};
use crate::operation::Operation;

verus! {

/// Read from a descriptor into the spare room of an owned, growable
/// buffer. The operation owns the buffer until it completes, so a dropped
/// future never frees memory the kernel may still fill. On completion the
/// buffer travels back to the caller together with the reported count; the
/// host that performed the kernel fill extends the buffer's initialized
/// length by that count before interpreting the completion.
pub struct Read {
    file: i32,
    buffer: Vec<u8>,
    capacity: usize,
}

impl Read {
    /// The descriptor being read.
    pub closed spec fn fd(self) -> i32 {
        self.file
    }

    /// The owned buffer the kernel fills.
    pub closed spec fn buffer_value(self) -> Vec<u8> {
        self.buffer
    }

    /// The bytes currently initialized in the owned buffer.
    pub open spec fn buffer_view(self) -> Seq<u8> {
        self.buffer_value()@
    }

    /// The buffer's total room in bytes; the read targets the part beyond
    /// the initialized length.
    pub closed spec fn capacity_view(self) -> int {
        self.capacity as int
    }

    /// The number of bytes the submission asks for: the buffer's
    /// uninitialized tail.
    pub open spec fn spare_len(self) -> int {
        if self.buffer_view().len() <= self.capacity_view() {
            self.capacity_view() - self.buffer_view().len()
        } else {
            0
        }
    }

    /// A read from `file` into the spare room of `buffer`, whose total
    /// room is `capacity` bytes.
    pub fn new(file: i32, buffer: Vec<u8>, capacity: usize) -> (r: Read)
        requires
            capacity <= u32::MAX,
        ensures
            r.fd() == file,
            r.buffer_view() == buffer@,
            r.capacity_view() == capacity as int,
    {
        Read { file, buffer, capacity }
    }

    /// The owned buffer, for the host that pairs the submission with the
    /// buffer's actual memory.
    pub fn buffer_mut(&mut self) -> (r: &mut Vec<u8>)
        ensures
            r@ == old(self).buffer_view(),
            final(self).buffer_view() == final(r)@,
            final(self).fd() == old(self).fd(),
            final(self).capacity_view() == old(self).capacity_view(),
    {
        &mut self.buffer
    }
}

impl Operation for Read {
    type Output = Vec<u8>;

    open spec fn submission_view(&self) -> SqeOp {
        SqeOp::Read { fd: self.fd(), len: clipped_u32(self.spare_len()) }
    }

    open spec fn output_view(&self, entry: Cqe) -> Result<Vec<u8>, OpError> {
        if entry.result >= 0 {
            Ok(self.buffer_value())
        } else {
            Err(OpError { code: entry.result })
        }
    }

    fn build_submission(&self) -> (s: Sqe)
        ensures
            s.op == self.submission_view(),
    {
        let len = if self.buffer.len() <= self.capacity {
            self.capacity - self.buffer.len()
        } else {
            0
        };
        let clipped: u32 = if len <= u32::MAX as usize {
            len as u32
        } else {
            u32::MAX
        };
        Sqe::new(SqeOp::Read { fd: self.file, len: clipped })
    }

    fn process_completion(&mut self, entry: Cqe) -> (r: Result<Vec<u8>, OpError>)
        ensures
            r == old(self).output_view(entry),
    {
        if entry.result >= 0 {
            let mut taken: Vec<u8> = Vec::new();
            core::mem::swap(&mut self.buffer, &mut taken);
            Ok(taken)
        } else {
            Err(OpError { code: entry.result })
        }
    }
}

/// Write the contents of an owned buffer to a descriptor. The operation
/// owns the bytes until it completes, and the completion reports how many
/// of them the kernel consumed.
pub struct Write {
    file: i32,
    buffer: Vec<u8>,
}

impl Write {
    /// The descriptor being written.
    pub closed spec fn fd(self) -> i32 {
        self.file
    }

    /// The bytes being written.
    pub closed spec fn buffer_view(self) -> Seq<u8> {
        self.buffer@
    }

    /// A write of `buffer` to `file`.
    pub fn new(file: i32, buffer: Vec<u8>) -> (r: Write)
        requires
            buffer@.len() <= u32::MAX,
        ensures
            r.fd() == file,
            r.buffer_view() == buffer@,
    {
        Write { file, buffer }
    }

    /// The owned bytes, for the host that pairs the submission with the
    /// buffer's actual memory.
    pub fn buffer(&self) -> (r: &Vec<u8>)
        ensures
            r@ == self.buffer_view(),
    {
        &self.buffer
    }
}

impl Operation for Write {
    type Output = usize;

    open spec fn submission_view(&self) -> SqeOp {
        SqeOp::Write { fd: self.fd(), len: clipped_u32(self.buffer_view().len() as int) }
    }

    open spec fn output_view(&self, entry: Cqe) -> Result<usize, OpError> {
        if entry.result >= 0 {
            Ok(entry.result as usize)
        } else {
            Err(OpError { code: entry.result })
        }
    }

    fn build_submission(&self) -> (s: Sqe)
        ensures
            s.op == self.submission_view(),
    {
        let len = self.buffer.len();
        let clipped: u32 = if len <= u32::MAX as usize {
            len as u32
        } else {
            u32::MAX
        };
        Sqe::new(SqeOp::Write { fd: self.file, len: clipped })
    }

    fn process_completion(&mut self, entry: Cqe) -> (r: Result<usize, OpError>)
        ensures
            r == old(self).output_view(entry),
    {
        interpret_count(entry)
    }
}

/// Move up to `amount` bytes between two descriptors inside the kernel,
/// without touching user memory. The completion reports how many bytes
/// moved.
pub struct Splice {
    input: i32,
    output: i32,
    amount: u32,
}

impl Splice {
    /// The source descriptor.
    pub closed spec fn input_fd(self) -> i32 {
        self.input
    }

    /// The destination descriptor.
    pub closed spec fn output_fd(self) -> i32 {
        self.output
    }

    /// How many bytes to move at most.
    pub closed spec fn amount_view(self) -> u32 {
        self.amount
    }

    /// A kernel-side move of up to `amount` bytes from `input` to
    /// `output`.
    pub fn new(input: i32, output: i32, amount: u32) -> (r: Splice)
        ensures
            r.input_fd() == input,
            r.output_fd() == output,
            r.amount_view() == amount,
    {
        Splice { input, output, amount }
    }
}

impl Operation for Splice {
    type Output = usize;

    open spec fn submission_view(&self) -> SqeOp {
        SqeOp::Splice { fd_in: self.input_fd(), fd_out: self.output_fd(), len: self.amount_view() }
    }

    open spec fn output_view(&self, entry: Cqe) -> Result<usize, OpError> {
        if entry.result >= 0 {
            Ok(entry.result as usize)
        } else {
            Err(OpError { code: entry.result })
        }
    }

    fn build_submission(&self) -> (s: Sqe)
        ensures
            s.op == self.submission_view(),
    {
        Sqe::new(SqeOp::Splice { fd_in: self.input, fd_out: self.output, len: self.amount })
    }

    fn process_completion(&mut self, entry: Cqe) -> (r: Result<usize, OpError>)
        ensures
            r == old(self).output_view(entry),
    {
        interpret_count(entry)
    }
}

} // verus!
