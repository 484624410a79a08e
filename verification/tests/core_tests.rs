//! The exclusive-access cell, the executor queue, handles, and entry
//! interpretation.

use std::collections::VecDeque;

use uring_playground::cell::DangerCell;
use uring_playground::entries::{
    interpret_count, interpret_fd, interpret_unit, more, Cqe, OpError, SqeOp,
};
use uring_playground::executor::Executor;
use uring_playground::reactor::OperationHandle;
use uring_playground::table::SlotState;
use uring_playground::Sqe;

#[test]
fn cell_round_trips_the_value() {
    let mut cell = DangerCell::new(41);
    let mut guard = cell.assume_unique_access();
    assert_eq!(*guard.get(), 41);
    *guard.get_mut() += 1;
    cell.release(guard);

    let guard = cell.assume_unique_access();
    assert_eq!(guard.into_inner(), 42);
}

#[test]
fn executor_queue_is_fifo() {
    let mut executor = Executor::new();
    assert_eq!(executor.task_count(), 0);
    assert_eq!(executor.next_runnable(), None::<u32>);

    executor.schedule(1u32);
    executor.schedule(2u32);
    executor.schedule(3u32);
    assert_eq!(executor.task_count(), 3);

    assert_eq!(executor.next_runnable(), Some(1));
    // a runnable scheduled mid-drain stands behind everything queued
    executor.schedule(4u32);
    assert_eq!(executor.next_runnable(), Some(2));
    assert_eq!(executor.next_runnable(), Some(3));
    assert_eq!(executor.next_runnable(), Some(4));
    assert_eq!(executor.next_runnable(), None);
}

#[test]
fn handles_round_trip_their_index() {
    let handle = OperationHandle::from_raw(17);
    assert_eq!(handle.as_raw(), 17);
    let copy = handle;
    assert_eq!(copy, handle);
}

#[test]
fn more_flag_follows_the_kernel_bit() {
    assert!(!more(0));
    assert!(more(2));
    assert!(more(3));
    assert!(!more(1));
    assert!(!more(u32::MAX & !2));
    assert!(more(u32::MAX));
}

#[test]
fn interpretation_splits_on_the_result_sign() {
    let ok = Cqe { user_data: 0, result: 7, flags: 0 };
    let err = Cqe { user_data: 0, result: -13, flags: 0 };

    assert_eq!(interpret_count(ok), Ok(7));
    assert_eq!(interpret_count(err), Err(OpError { code: -13 }));
    assert_eq!(interpret_unit(ok), Ok(()));
    assert_eq!(interpret_unit(err), Err(OpError { code: -13 }));
    assert_eq!(interpret_fd(ok), Ok(7));
    assert_eq!(interpret_fd(err), Err(OpError { code: -13 }));

    let zero = Cqe { user_data: 0, result: 0, flags: 0 };
    assert_eq!(interpret_count(zero), Ok(0));
}

#[test]
fn fresh_entries_carry_no_user_data() {
    let sqe = Sqe::new(SqeOp::Close { fd: 1 });
    assert_eq!(sqe.user_data, 0);
    assert_eq!(sqe.op, SqeOp::Close { fd: 1 });
}

#[test]
fn slot_state_accessors_return_their_payload() {
    let waiting: SlotState<u64> = SlotState::Waiting(5);
    assert_eq!(waiting.assume_as_waiting(), 5);

    let entry = Cqe { user_data: 1, result: 2, flags: 0 };
    let completed: SlotState<u64> = SlotState::Completed(entry);
    assert_eq!(completed.assume_as_completed(), entry);

    let mut queue = VecDeque::new();
    queue.push_back(entry);
    let mut unclaimed: SlotState<u64> = SlotState::Unclaimed(queue);
    let entries = unclaimed.assume_as_mut_unclaimed();
    entries.push_back(Cqe { user_data: 1, result: 3, flags: 0 });
    assert_eq!(entries.len(), 2);
}
