//! A single-threaded asynchronous I/O runtime core in the style of Linux
//! `io_uring`: a reactor that multiplexes submissions and completions among
//! cooperatively scheduled tasks, an operation facade that turns in-flight
//! submissions into oneshot futures or multishot streams, a FIFO executor
//! queue, and a poll-fallback adapter.
//!
//! The crate verifies the runtime's decision logic: slot state transitions,
//! completion routing and buffering, submission-ring overflow handling, and
//! the adapter protocols. The kernel itself, raw submission-queue memory and
//! task wakers live outside this crate; callers feed completions in as plain
//! values and carry the produced submission descriptions to the ring.

pub mod adapter;
pub mod cell;
pub mod common;
pub mod entries;
pub mod executor;
pub mod io;
pub mod net;
pub mod operation;
pub mod reactor;
pub mod table;

pub use crate::adapter::PollIo;
pub use crate::cell::{AccessGuard, DangerCell};
pub use crate::common::{Cancel, Close, Raw};
pub use crate::entries::{Cqe, OpError, Sqe, SqeOp, SubmitError};
pub use crate::executor::Executor;
pub use crate::io::{Read, Splice, Write};
pub use crate::net::{Accept, Shutdown};
pub use crate::operation::{Multishot, Oneshot, Operation};
pub use crate::reactor::{OperationHandle, Reactor};
