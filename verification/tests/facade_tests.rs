//! Operation-facade behavior: the catalog, the oneshot future driver and
//! the multishot stream driver, against a scripted kernel.

use uring_playground::common::{Cancel, Close, Raw};
use uring_playground::entries::{Cqe, OpError, PollInterest, ShutdownHow, SqeOp};
use uring_playground::io::{Read, Splice, Write};
use uring_playground::net::{Accept, Shutdown};
use uring_playground::operation::{
    Multishot, MultishotStep, Oneshot, OneshotStep, Operation,
};
use uring_playground::reactor::Reactor;
use uring_playground::Sqe;

const MORE: u32 = 2;

fn cqe(user_data: u64, result: i32, flags: u32) -> Cqe {
    Cqe { user_data, result, flags }
}

/// Deliver `result`/`flags` to the oneshot's slot, as one reactor tick
/// would.
fn complete(reactor: &mut Reactor<u64>, user_data: u64, result: i32, flags: u32) {
    assert!(reactor.is_live(user_data));
    reactor.fold_completion(cqe(user_data, result, flags));
}

#[test]
fn oneshot_raw_passes_the_completion_through() {
    let mut reactor = Reactor::<u64>::new(8);
    let mut future = Oneshot::new(Raw::new(Sqe::new(SqeOp::Passthrough)));

    assert!(matches!(future.poll_step(&mut reactor, 1), OneshotStep::Pending));
    let handle = future.operation_handle().expect("submitted");
    let user_data = handle.as_raw() as u64;
    assert_eq!(reactor.pending_entries()[0].op, SqeOp::Passthrough);

    assert!(matches!(future.poll_step(&mut reactor, 1), OneshotStep::Pending));
    complete(&mut reactor, user_data, 55, 0);
    match future.poll_step(&mut reactor, 1) {
        OneshotStep::Complete(Ok(entry)) => assert_eq!(entry, cqe(user_data, 55, 0)),
        _ => panic!("expected the completion entry"),
    }
    assert!(!reactor.is_live(user_data));
}

#[test]
fn oneshot_rejects_multishot_completions() {
    let mut reactor = Reactor::<u64>::new(8);
    let mut future = Oneshot::new(Close::new(5));
    future.poll_step(&mut reactor, 1);
    let user_data = future.operation_handle().unwrap().as_raw() as u64;

    complete(&mut reactor, user_data, 0, MORE);
    match future.poll_step(&mut reactor, 1) {
        OneshotStep::NotOneshot(entry) => assert_eq!(entry.flags, MORE),
        _ => panic!("a MORE completion must be flagged as misuse"),
    }
}

#[test]
fn multishot_accept_yields_three_connections_in_order() {
    let mut reactor = Reactor::<u64>::new(8);
    let mut stream = Multishot::new(Accept::new(4).non_blocking_socket());

    assert!(matches!(stream.poll_next_step(&mut reactor, 1), MultishotStep::Pending));
    assert_eq!(stream.size_hint(), (1, None));
    let user_data = stream.operation_handle().unwrap().as_raw() as u64;
    assert_eq!(
        reactor.pending_entries()[0].op,
        SqeOp::Accept { fd: 4, nonblocking: true, close_on_exec: false }
    );

    for fd in [7, 8, 9] {
        complete(&mut reactor, user_data, fd, MORE);
    }
    for expected in [7, 8, 9] {
        match stream.poll_next_step(&mut reactor, 1) {
            MultishotStep::Item { result: Ok(fd), last, .. } => {
                assert_eq!(fd, expected);
                assert!(!last);
            }
            _ => panic!("expected an accepted descriptor"),
        }
    }
    // all three are claimed; the stream stays live and pends
    assert!(matches!(stream.poll_next_step(&mut reactor, 1), MultishotStep::Pending));
    assert_eq!(stream.size_hint(), (1, None));
}

#[test]
fn multishot_finishes_on_terminal_completion() {
    let mut reactor = Reactor::<u64>::new(8);
    let mut stream = Multishot::new(Accept::new(4));
    stream.poll_next_step(&mut reactor, 1);
    let user_data = stream.operation_handle().unwrap().as_raw() as u64;

    complete(&mut reactor, user_data, 6, 0);
    match stream.poll_next_step(&mut reactor, 1) {
        MultishotStep::Item { result: Ok(fd), last, buffered } => {
            assert_eq!(fd, 6);
            assert!(last);
            assert!(!buffered);
        }
        _ => panic!("expected the final item"),
    }
    assert_eq!(stream.size_hint(), (0, Some(0)));
    assert!(matches!(stream.poll_next_step(&mut reactor, 1), MultishotStep::Finished));
    assert!(!reactor.is_live(user_data));
}

#[test]
fn cancellation_resolves_both_futures() {
    // A long-running poll is cancelled: the poll resolves with the
    // kernel's "cancelled" error and the cancel itself with success.
    let mut reactor = Reactor::<u64>::new(8);
    let mut polled = Oneshot::new(Raw::new(Sqe::new(SqeOp::PollAdd {
        fd: 6,
        interest: PollInterest::Readable,
    })));
    polled.poll_step(&mut reactor, 1);
    let poll_ud = polled.operation_handle().unwrap().as_raw() as u64;

    let mut cancel = Oneshot::new(Cancel::new(polled.operation_handle().unwrap()));
    cancel.poll_step(&mut reactor, 2);
    let cancel_ud = cancel.operation_handle().unwrap().as_raw() as u64;
    assert_eq!(reactor.pending_entries()[1].op, SqeOp::Cancel { target: poll_ud });

    let ecanceled = -125;
    complete(&mut reactor, poll_ud, ecanceled, 0);
    complete(&mut reactor, cancel_ud, 0, 0);

    match polled.poll_step(&mut reactor, 1) {
        OneshotStep::Complete(Ok(entry)) => assert_eq!(entry.result, ecanceled),
        _ => panic!("the cancelled poll must resolve"),
    }
    assert!(matches!(
        cancel.poll_step(&mut reactor, 2),
        OneshotStep::Complete(Ok(()))
    ));
}

#[test]
fn zero_length_write_returns_zero() {
    let mut reactor = Reactor::<u64>::new(8);
    let op = Write::new(3, Vec::new());
    assert_eq!(op.build_submission().op, SqeOp::Write { fd: 3, len: 0 });

    let mut future = Oneshot::new(op);
    future.poll_step(&mut reactor, 1);
    let user_data = future.operation_handle().unwrap().as_raw() as u64;
    complete(&mut reactor, user_data, 0, 0);
    assert!(matches!(
        future.poll_step(&mut reactor, 1),
        OneshotStep::Complete(Ok(0))
    ));
}

#[test]
fn read_into_full_buffer_asks_for_nothing_and_returns_zero() {
    let buffer = vec![1u8, 2, 3, 4];
    let op = Read::new(5, buffer, 4);
    assert_eq!(op.build_submission().op, SqeOp::Read { fd: 5, len: 0 });

    let mut reactor = Reactor::<u64>::new(8);
    let mut future = Oneshot::new(op);
    future.poll_step(&mut reactor, 1);
    let user_data = future.operation_handle().unwrap().as_raw() as u64;
    complete(&mut reactor, user_data, 0, 0);
    match future.poll_step(&mut reactor, 1) {
        OneshotStep::Complete(Ok(buffer)) => assert_eq!(buffer, vec![1, 2, 3, 4]),
        _ => panic!("a full buffer still completes with zero bytes"),
    }
}

#[test]
fn write_then_read_round_trips_the_bytes() {
    // One peer writes four bytes, the other reads them into an empty
    // buffer; the scripted kernel moves the bytes between the two ends.
    let mut reactor = Reactor::<u64>::new(8);
    let payload = b"ping".to_vec();

    let mut writer = Oneshot::new(Write::new(3, payload.clone()));
    writer.poll_step(&mut reactor, 1);
    let writer_ud = writer.operation_handle().unwrap().as_raw() as u64;
    assert_eq!(reactor.pending_entries()[0].op, SqeOp::Write { fd: 3, len: 4 });

    let mut read_op = Read::new(4, Vec::new(), 16);
    {
        // the scripted kernel will move the written bytes into the
        // reader's buffer once the write completes
        let buffer = read_op.buffer_mut();
        buffer.extend_from_slice(b"ping");
    }
    let mut reader = Oneshot::new(read_op);
    reader.poll_step(&mut reactor, 2);
    let reader_ud = reader.operation_handle().unwrap().as_raw() as u64;

    // the kernel consumes the writer's bytes ...
    complete(&mut reactor, writer_ud, payload.len() as i32, 0);
    let written = match writer.poll_step(&mut reactor, 1) {
        OneshotStep::Complete(Ok(count)) => count,
        _ => panic!("the write must complete"),
    };
    assert_eq!(written, 4);

    // ... and the reader claims exactly those bytes
    complete(&mut reactor, reader_ud, written as i32, 0);
    match reader.poll_step(&mut reactor, 2) {
        OneshotStep::Complete(Ok(buffer)) => assert_eq!(buffer, b"ping".to_vec()),
        _ => panic!("the read must complete"),
    }
}

#[test]
fn splice_moves_the_requested_bytes() {
    let mut reactor = Reactor::<u64>::new(8);
    let op = Splice::new(3, 4, 512);
    assert_eq!(
        op.build_submission().op,
        SqeOp::Splice { fd_in: 3, fd_out: 4, len: 512 }
    );
    let mut future = Oneshot::new(op);
    future.poll_step(&mut reactor, 1);
    let user_data = future.operation_handle().unwrap().as_raw() as u64;
    complete(&mut reactor, user_data, 512, 0);
    assert!(matches!(
        future.poll_step(&mut reactor, 1),
        OneshotStep::Complete(Ok(512))
    ));
}

#[test]
fn accept_then_close_leaves_the_listener_accepting() {
    let mut reactor = Reactor::<u64>::new(8);

    let mut first = Oneshot::new(Accept::new(4));
    first.poll_step(&mut reactor, 1);
    let first_ud = first.operation_handle().unwrap().as_raw() as u64;
    complete(&mut reactor, first_ud, 8, 0);
    let conn = match first.poll_step(&mut reactor, 1) {
        OneshotStep::Complete(Ok(fd)) => fd,
        _ => panic!("accept must complete"),
    };

    let mut close = Oneshot::new(Close::new(conn));
    close.poll_step(&mut reactor, 2);
    let close_ud = close.operation_handle().unwrap().as_raw() as u64;
    complete(&mut reactor, close_ud, 0, 0);
    assert!(matches!(
        close.poll_step(&mut reactor, 2),
        OneshotStep::Complete(Ok(()))
    ));

    // the listener accepts again
    let mut second = Oneshot::new(Accept::new(4));
    second.poll_step(&mut reactor, 3);
    let second_ud = second.operation_handle().unwrap().as_raw() as u64;
    complete(&mut reactor, second_ud, 9, 0);
    assert!(matches!(
        second.poll_step(&mut reactor, 3),
        OneshotStep::Complete(Ok(9))
    ));
}

#[test]
fn echo_roundtrip_over_one_reactor() {
    // The echo scenario against a scripted kernel: a server accepts,
    // reads four bytes, writes them back and shuts down; the client's
    // four bytes come back unchanged. Two tasks' operations interleave on
    // one reactor.
    let mut reactor = Reactor::<u64>::new(8);
    let listener = 4;

    let mut accept = Oneshot::new(Accept::new(listener));
    accept.poll_step(&mut reactor, 1);
    let accept_ud = accept.operation_handle().unwrap().as_raw() as u64;

    // client connects; the kernel reports the new connection
    complete(&mut reactor, accept_ud, 7, 0);
    let conn = match accept.poll_step(&mut reactor, 1) {
        OneshotStep::Complete(Ok(fd)) => fd,
        _ => panic!("accept must complete"),
    };

    // client writes "ping"
    let mut client_write = Oneshot::new(Write::new(9, b"ping".to_vec()));
    client_write.poll_step(&mut reactor, 2);
    let cw_ud = client_write.operation_handle().unwrap().as_raw() as u64;
    complete(&mut reactor, cw_ud, 4, 0);
    assert!(matches!(
        client_write.poll_step(&mut reactor, 2),
        OneshotStep::Complete(Ok(4))
    ));

    // server reads the four bytes: the scripted kernel fills the buffer
    let mut server_read_op = Read::new(conn, Vec::new(), 4);
    {
        let buffer = server_read_op.buffer_mut();
        buffer.extend_from_slice(b"ping");
    }
    let mut server_read = Oneshot::new(server_read_op);
    server_read.poll_step(&mut reactor, 1);
    let sr_ud = server_read.operation_handle().unwrap().as_raw() as u64;
    complete(&mut reactor, sr_ud, 4, 0);
    let echoed = match server_read.poll_step(&mut reactor, 1) {
        OneshotStep::Complete(Ok(buffer)) => buffer,
        _ => panic!("read must complete"),
    };
    assert_eq!(echoed, b"ping".to_vec());

    // server writes the bytes back and shuts down both halves
    let mut server_write = Oneshot::new(Write::new(conn, echoed));
    server_write.poll_step(&mut reactor, 1);
    let sw_ud = server_write.operation_handle().unwrap().as_raw() as u64;
    complete(&mut reactor, sw_ud, 4, 0);
    assert!(matches!(
        server_write.poll_step(&mut reactor, 1),
        OneshotStep::Complete(Ok(4))
    ));

    let shutdown_op = Shutdown::new(conn);
    assert_eq!(
        shutdown_op.build_submission().op,
        SqeOp::Shutdown { fd: conn, how: ShutdownHow::Both }
    );
    let mut shutdown = Oneshot::new(shutdown_op);
    shutdown.poll_step(&mut reactor, 1);
    let sd_ud = shutdown.operation_handle().unwrap().as_raw() as u64;
    complete(&mut reactor, sd_ud, 0, 0);
    assert!(matches!(
        shutdown.poll_step(&mut reactor, 1),
        OneshotStep::Complete(Ok(()))
    ));
}

#[test]
fn negative_results_become_structured_errors() {
    let mut reactor = Reactor::<u64>::new(8);
    let mut future = Oneshot::new(Close::new(77));
    future.poll_step(&mut reactor, 1);
    let user_data = future.operation_handle().unwrap().as_raw() as u64;
    let ebadf = -9;
    complete(&mut reactor, user_data, ebadf, 0);
    match future.poll_step(&mut reactor, 1) {
        OneshotStep::Complete(Err(OpError { code })) => assert_eq!(code, ebadf),
        _ => panic!("a negative result must surface as an error"),
    }
}

#[test]
fn shutdown_builders_pick_the_half() {
    assert_eq!(
        Shutdown::new(3).read_part_only().build_submission().op,
        SqeOp::Shutdown { fd: 3, how: ShutdownHow::ReadPart }
    );
    assert_eq!(
        Shutdown::new(3).write_part_only().build_submission().op,
        SqeOp::Shutdown { fd: 3, how: ShutdownHow::WritePart }
    );
}

#[test]
fn accept_builders_set_the_socket_flags() {
    assert_eq!(
        Accept::new(3).build_submission().op,
        SqeOp::Accept { fd: 3, nonblocking: false, close_on_exec: false }
    );
    assert_eq!(
        Accept::new(3).non_blocking_socket().close_socket_on_exec().build_submission().op,
        SqeOp::Accept { fd: 3, nonblocking: true, close_on_exec: true }
    );
}
