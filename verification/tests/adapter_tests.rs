//! Poll-fallback adapter behavior against a scripted kernel.

use uring_playground::adapter::{OpStep, PollIo, ReadStep, ReadyCheck, SysOutcome};
use uring_playground::entries::{Cqe, OpError, PollInterest, ShutdownHow, SqeOp};
use uring_playground::reactor::Reactor;

fn cqe(user_data: u64, result: i32, flags: u32) -> Cqe {
    Cqe { user_data, result, flags }
}

#[test]
fn eagain_read_falls_back_to_readiness_poll() {
    // Nothing to read on a nonblocking descriptor: the adapter submits a
    // readable-poll and pends; once readiness arrives, the next attempt
    // reads directly.
    let mut reactor = Reactor::<u64>::new(8);
    let mut io = PollIo::new(5);

    assert_eq!(io.poll_read_ready(&mut reactor, 1), ReadyCheck::Proceed);
    let step = io.poll_read_outcome(&mut reactor, 1, SysOutcome::WouldBlock);
    assert_eq!(step, ReadStep::AwaitReadable);
    assert_eq!(
        reactor.pending_entries()[0].op,
        SqeOp::PollAdd { fd: 5, interest: PollInterest::Readable }
    );

    // still waiting: the readiness operation has no completion yet
    assert_eq!(io.poll_read_ready(&mut reactor, 1), ReadyCheck::Pending);

    // the peer writes; readiness completes and the retry succeeds
    let user_data = reactor.pending_entries()[0].user_data;
    reactor.fold_completion(cqe(user_data, 1, 0));
    assert_eq!(io.poll_read_ready(&mut reactor, 1), ReadyCheck::Proceed);
    assert_eq!(
        io.poll_read_outcome(&mut reactor, 1, SysOutcome::Done(4)),
        ReadStep::Done(4)
    );
}

#[test]
fn interrupted_read_retries_after_self_wake() {
    let mut reactor = Reactor::<u64>::new(8);
    let mut io = PollIo::new(5);
    assert_eq!(io.poll_read_ready(&mut reactor, 1), ReadyCheck::Proceed);
    assert_eq!(
        io.poll_read_outcome(&mut reactor, 1, SysOutcome::Interrupted),
        ReadStep::RetryLater
    );
    // no readiness operation was submitted
    assert_eq!(reactor.pending_entries().len(), 0);
}

#[test]
fn failed_readiness_poll_surfaces_the_error() {
    let mut reactor = Reactor::<u64>::new(8);
    let mut io = PollIo::new(5);
    io.poll_read_outcome(&mut reactor, 1, SysOutcome::WouldBlock);
    let user_data = reactor.pending_entries()[0].user_data;
    let ebadf = -9;
    reactor.fold_completion(cqe(user_data, ebadf, 0));
    assert_eq!(
        io.poll_read_ready(&mut reactor, 1),
        ReadyCheck::Failed(OpError { code: ebadf })
    );
}

#[test]
fn read_syscall_errors_pass_through() {
    let mut reactor = Reactor::<u64>::new(8);
    let mut io = PollIo::new(5);
    let econnreset = OpError { code: -104 };
    assert_eq!(
        io.poll_read_outcome(&mut reactor, 1, SysOutcome::Failed(econnreset)),
        ReadStep::Failed(econnreset)
    );
}

#[test]
fn write_submits_then_reports_the_count() {
    let mut reactor = Reactor::<u64>::new(8);
    let mut io = PollIo::new(6);

    assert_eq!(io.poll_write(&mut reactor, 1, 4), OpStep::Pending);
    assert_eq!(reactor.pending_entries()[0].op, SqeOp::Write { fd: 6, len: 4 });

    assert_eq!(io.poll_write(&mut reactor, 1, 4), OpStep::Pending);
    let user_data = reactor.pending_entries()[0].user_data;
    reactor.fold_completion(cqe(user_data, 4, 0));
    assert_eq!(io.poll_write(&mut reactor, 1, 4), OpStep::Done(4));
}

#[test]
fn shutdown_cancels_the_inflight_write_first() {
    let mut reactor = Reactor::<u64>::new(8);
    let mut io = PollIo::new(6);

    // a write is in flight
    io.poll_write(&mut reactor, 1, 4);
    let write_ud = reactor.pending_entries()[0].user_data;

    // first shutdown poll submits a cancel naming the write
    assert_eq!(io.poll_shutdown(&mut reactor, 2), OpStep::Pending);
    assert_eq!(
        reactor.pending_entries()[1].op,
        SqeOp::Cancel { target: write_ud }
    );
    let cancel_ud = reactor.pending_entries()[1].user_data;

    // the cancel completes: the write slot is cleared and the poll retries
    reactor.fold_completion(cqe(cancel_ud, 0, 0));
    assert_eq!(io.poll_shutdown(&mut reactor, 2), OpStep::Retry);

    // next poll submits the shutdown of the sending half
    assert_eq!(io.poll_shutdown(&mut reactor, 2), OpStep::Pending);
    assert_eq!(
        reactor.pending_entries()[2].op,
        SqeOp::Shutdown { fd: 6, how: ShutdownHow::WritePart }
    );
    let shutdown_ud = reactor.pending_entries()[2].user_data;
    reactor.fold_completion(cqe(shutdown_ud, 0, 0));
    assert_eq!(io.poll_shutdown(&mut reactor, 2), OpStep::Done(0));
}

#[test]
fn shutdown_without_inflight_operations_goes_straight_through() {
    let mut reactor = Reactor::<u64>::new(8);
    let mut io = PollIo::new(6);
    assert_eq!(io.poll_shutdown(&mut reactor, 1), OpStep::Pending);
    assert_eq!(
        reactor.pending_entries()[0].op,
        SqeOp::Shutdown { fd: 6, how: ShutdownHow::WritePart }
    );
    let user_data = reactor.pending_entries()[0].user_data;
    reactor.fold_completion(cqe(user_data, 0, 0));
    assert_eq!(io.poll_shutdown(&mut reactor, 1), OpStep::Done(0));
}

#[test]
fn close_submits_and_completes() {
    let mut reactor = Reactor::<u64>::new(8);
    let mut io = PollIo::new(6);
    assert_eq!(io.poll_close(&mut reactor, 1), OpStep::Pending);
    assert_eq!(reactor.pending_entries()[0].op, SqeOp::Close { fd: 6 });
    assert_eq!(io.poll_close(&mut reactor, 1), OpStep::Pending);
    let user_data = reactor.pending_entries()[0].user_data;
    reactor.fold_completion(cqe(user_data, 0, 0));
    assert_eq!(io.poll_close(&mut reactor, 1), OpStep::Done(0));
}

#[test]
fn concurrent_directions_use_separate_slots() {
    // read, write and close keep independent in-flight handles, so their
    // polls never steal each other's completions
    let mut reactor = Reactor::<u64>::new(8);
    let mut io = PollIo::new(6);

    io.poll_read_outcome(&mut reactor, 1, SysOutcome::WouldBlock);
    io.poll_write(&mut reactor, 2, 4);
    io.poll_close(&mut reactor, 3);

    let read_ud = reactor.pending_entries()[0].user_data;
    let write_ud = reactor.pending_entries()[1].user_data;
    let close_ud = reactor.pending_entries()[2].user_data;
    assert!(read_ud != write_ud && write_ud != close_ud);

    // complete them out of order; each poll claims only its own
    reactor.fold_completion(cqe(close_ud, 0, 0));
    reactor.fold_completion(cqe(write_ud, 4, 0));
    assert_eq!(io.poll_read_ready(&mut reactor, 1), ReadyCheck::Pending);
    assert_eq!(io.poll_write(&mut reactor, 2, 4), OpStep::Done(4));
    assert_eq!(io.poll_close(&mut reactor, 3), OpStep::Done(0));

    reactor.fold_completion(cqe(read_ud, 1, 0));
    assert_eq!(io.poll_read_ready(&mut reactor, 1), ReadyCheck::Proceed);
}
