//! The operation facade: a capability that builds one submission entry and
//! interprets the completions belonging to it, plus the two drivers over
//! that capability — a oneshot adapter that resolves with a single
//! completion, and a multishot adapter that yields a stream of completions
//! until a terminal one (MORE flag clear) arrives.
//!
//! The drivers are written as step functions from reactor state and waker
//! to verdicts; the thin poll shells that the host runtime wraps around
//! them perform the actual kernel flushes and wakeups the verdicts call
//! for.

use vstd::prelude::*;

use crate::entries::{has_more, more, Cqe, OpError, Sqe, SqeOp};
use crate::reactor::{stamped, OperationHandle, Reactor};
use crate::table::{Driven, SlotView};

verus! {

/// An abstract ring operation: it describes one submission entry and
/// interprets one completion entry into a typed output.
///
/// The implementer owns every parameter the submission mentions — buffers
/// are moved into the operation value — so nothing the kernel may still
/// reference is freed before the operation's terminal completion.
pub trait Operation: Sized {
    /// What the operation produces.
    type Output;

    /// The submission the operation describes.
    spec fn submission_view(&self) -> SqeOp;

    /// The typed result the operation extracts from completion `entry`.
    spec fn output_view(&self, entry: Cqe) -> Result<Self::Output, OpError>;

    /// Build the queue entry submitting this operation; called once per
    /// submission. The reactor stamps the user-data field afterwards.
    fn build_submission(&self) -> (s: Sqe)
        ensures
            s.op == self.submission_view(),
    ;

    /// Interpret a completion entry belonging to this operation,
    /// converting a negative kernel result into a structured error.
    fn process_completion(&mut self, entry: Cqe) -> (r: Result<Self::Output, OpError>)
        ensures
            r == old(self).output_view(entry),
    ;
}

/// How a first poll submits an operation: a fresh slot `handle` is parked
/// with `waker`, and the described entry, stamped with the slot's index,
/// is queued behind the earlier pending ones.
pub open spec fn submits_operation<W>(
    before: Reactor<W>,
    after: Reactor<W>,
    op: SqeOp,
    handle: OperationHandle,
    waker: W,
) -> bool {
    &&& !before.slot_live(handle.index())
    &&& after.slot_models() == before.slot_models().insert(
        handle.index(),
        SlotView::Parked(waker),
    )
    &&& after.pending_view() == before.pending_view().push(
        stamped(Sqe { op, user_data: 0 }, handle.index()),
    )
    &&& after.overflow_view() is None
}

/// How a later poll transforms the reactor: exactly the slot transition
/// [`SlotView::after_drive`] at the operation's slot, with the pending
/// submissions untouched.
pub open spec fn drives_operation<W>(
    before: Reactor<W>,
    after: Reactor<W>,
    handle: OperationHandle,
    waker: W,
) -> bool {
    &&& (match before.slot_models()[handle.index()].after_drive(waker) {
        Some(next) => after.slot_models() == before.slot_models().insert(handle.index(), next),
        None => after.slot_models() == before.slot_models().remove(handle.index()),
    })
    &&& after.pending_view() == before.pending_view()
    &&& after.overflow_view() == before.overflow_view()
}

/// What one poll of a oneshot operation reports.
pub enum OneshotStep<T> {
    /// Submitted or still waiting; the waker was parked.
    Pending,
    /// The single completion arrived and was interpreted; the future
    /// resolves with this result.
    Complete(Result<T, OpError>),
    /// A completion carried the MORE flag: the operation was not oneshot
    /// after all. The capability's contract was violated; the host treats
    /// this as fatal.
    NotOneshot(Cqe),
}

/// The step a oneshot poll owes once a completion is claimed: a completion
/// still carrying the MORE flag is a contract violation, any other
/// resolves the future with the operation's interpretation.
pub open spec fn oneshot_outcome<O: Operation>(op: O, entry: Cqe) -> OneshotStep<O::Output> {
    if has_more(entry.flags) {
        OneshotStep::NotOneshot(entry)
    } else {
        OneshotStep::Complete(op.output_view(entry))
    }
}

/// Future-shaped driver resolving with an operation's single completion.
pub struct Oneshot<O: Operation> {
    operation: O,
    handle: Option<OperationHandle>,
}

impl<O: Operation> Oneshot<O> {
    /// The operation's slot handle, once submitted.
    pub closed spec fn handle_view(self) -> Option<OperationHandle> {
        self.handle
    }

    /// The wrapped operation.
    pub closed spec fn operation_view(self) -> O {
        self.operation
    }

    /// A driver that will submit `operation` on its first poll.
    pub fn new(operation: O) -> (r: Oneshot<O>)
        ensures
            r.handle_view() is None,
            r.operation_view() == operation,
    {
        Oneshot { operation, handle: None }
    }

    /// The identifier of the in-flight submission, if one was made.
    pub fn operation_handle(&self) -> (r: Option<OperationHandle>)
        ensures
            r == self.handle_view(),
    {
        self.handle
    }

    /// Advance the future by one poll: submit on the first call, then
    /// claim the completion once the reactor holds it.
    ///
    /// The first call queues the submission, so the ring must have room —
    /// the host flushes it beforehand when full. Later calls require the
    /// slot to still be live: a oneshot slot is removed exactly when its
    /// completion is claimed, and the future resolves then, so a live
    /// future always satisfies this.
    pub fn poll_step<W>(&mut self, reactor: &mut Reactor<W>, waker: W) -> (step: OneshotStep<
        O::Output,
    >)
        requires
            old(reactor).wf(),
            old(reactor).overflow_view() is None,
            old(self).handle_view() is None ==> old(reactor).has_room_spec(),
            old(self).handle_view() matches Some(h) ==> old(reactor).slot_live(h.index()),
        ensures
            final(reactor).wf(),
            final(reactor).capacity_view() == old(reactor).capacity_view(),
            final(reactor).overflow_view() is None,
            old(self).handle_view() is None ==> step is Pending
                && final(self).handle_view() is Some
                && final(self).operation_view() == old(self).operation_view()
                && submits_operation(
                *old(reactor),
                *final(reactor),
                old(self).operation_view().submission_view(),
                final(self).handle_view()->0,
                waker,
            ),
            old(self).handle_view() matches Some(h) ==> final(self).handle_view() == old(self).handle_view() && drives_operation(*old(reactor), *final(reactor), h, waker) && (
            match old(reactor).slot_models()[h.index()].drive_verdict() {
                Driven::Pending => step is Pending && final(self).operation_view() == old(self).operation_view(),
                Driven::Ready(e) => step == oneshot_outcome(old(self).operation_view(), e),
                Driven::ReadyAgain(e) => step == oneshot_outcome(old(self).operation_view(), e),
            }),
    {
        match self.handle {
            None => {
                let entry = self.operation.build_submission();
                let handle = reactor.submit_with_room(entry, waker);
                self.handle = Some(handle);
                OneshotStep::Pending
            },
            Some(handle) => {
                match reactor.drive_operation(handle, waker) {
                    Driven::Pending => OneshotStep::Pending,
                    Driven::Ready(entry) => {
                        if more(entry.flags) {
                            OneshotStep::NotOneshot(entry)
                        } else {
                            OneshotStep::Complete(self.operation.process_completion(entry))
                        }
                    },
                    Driven::ReadyAgain(entry) => {
                        if more(entry.flags) {
                            OneshotStep::NotOneshot(entry)
                        } else {
                            OneshotStep::Complete(self.operation.process_completion(entry))
                        }
                    },
                }
            },
        }
    }
}

/// What one poll of a multishot operation reports.
pub enum MultishotStep<T> {
    /// Submitted or still waiting; the waker was parked.
    Pending,
    /// One completion was claimed and interpreted. `last` is set when it
    /// was terminal (MORE flag clear): the stream finishes after this
    /// item. `buffered` is set when further completions are already
    /// waiting in the slot: the host wakes itself to claim them promptly.
    Item { result: Result<T, OpError>, last: bool, buffered: bool },
    /// The stream already finished; there is nothing left to claim.
    Finished,
}

/// The item a multishot poll yields for a claimed completion: the
/// operation's interpretation, ending the stream when the entry was
/// terminal, with `buffered` telling the host to reschedule itself.
pub open spec fn multishot_item<O: Operation>(op: O, entry: Cqe, buffered: bool) -> MultishotStep<
    O::Output,
> {
    MultishotStep::Item {
        result: op.output_view(entry),
        last: !has_more(entry.flags),
        buffered,
    }
}

/// Stream-shaped driver yielding one item per completion until a terminal
/// completion ends the stream.
pub struct Multishot<O: Operation> {
    operation: O,
    handle: Option<OperationHandle>,
    finished: bool,
}

impl<O: Operation> Multishot<O> {
    /// The operation's slot handle, once submitted.
    pub closed spec fn handle_view(self) -> Option<OperationHandle> {
        self.handle
    }

    /// The wrapped operation.
    pub closed spec fn operation_view(self) -> O {
        self.operation
    }

    /// Whether a terminal completion already ended the stream.
    pub closed spec fn finished_view(self) -> bool {
        self.finished
    }

    /// A driver that will submit `operation` on its first poll.
    pub fn new(operation: O) -> (r: Multishot<O>)
        ensures
            r.handle_view() is None,
            r.operation_view() == operation,
            !r.finished_view(),
    {
        Multishot { operation, handle: None, finished: false }
    }

    /// The identifier of the in-flight submission, if one was made.
    pub fn operation_handle(&self) -> (r: Option<OperationHandle>)
        ensures
            r == self.handle_view(),
    {
        self.handle
    }

    /// The stream's size hint: at least one more item while live, exactly
    /// none once finished.
    pub fn size_hint(&self) -> (r: (usize, Option<usize>))
        ensures
            self.finished_view() ==> r == (0usize, Some(0usize)),
            !self.finished_view() ==> r == (1usize, Option::<usize>::None),
    {
        if self.finished {
            (0, Some(0))
        } else {
            (1, None)
        }
    }

    /// Advance the stream by one poll: submit on the first call, then
    /// claim one buffered completion per call until the terminal one.
    pub fn poll_next_step<W>(&mut self, reactor: &mut Reactor<W>, waker: W) -> (step: MultishotStep<
        O::Output,
    >)
        requires
            old(reactor).wf(),
            old(reactor).overflow_view() is None,
            old(self).handle_view() is None && !old(self).finished_view() ==> old(reactor).has_room_spec(),
            old(self).handle_view() matches Some(h) ==> (!old(self).finished_view() ==> old(reactor).slot_live(h.index())),
        ensures
            final(reactor).wf(),
            final(reactor).capacity_view() == old(reactor).capacity_view(),
            final(reactor).overflow_view() is None,
            old(self).finished_view() ==> step is Finished && *final(self) == *old(self) && *final(reactor) == *old(reactor),
            old(self).handle_view() is None && !old(self).finished_view() ==> step is Pending
                && final(self).handle_view() is Some
                && !final(self).finished_view()
                && final(self).operation_view() == old(self).operation_view()
                && submits_operation(
                *old(reactor),
                *final(reactor),
                old(self).operation_view().submission_view(),
                final(self).handle_view()->0,
                waker,
            ),
            old(self).handle_view() matches Some(h) ==> (!old(self).finished_view() ==> final(self).handle_view() == old(self).handle_view() && drives_operation(
                *old(reactor),
                *final(reactor),
                h,
                waker,
            ) && (match old(reactor).slot_models()[h.index()].drive_verdict() {
                Driven::Pending => step is Pending && final(self).finished_view() == old(self).finished_view() && final(self).operation_view() == old(self).operation_view(),
                Driven::Ready(e) => step == multishot_item(old(self).operation_view(), e, false)
                    && final(self).finished_view() == !has_more(e.flags),
                Driven::ReadyAgain(e) => step == multishot_item(old(self).operation_view(), e, true)
                    && final(self).finished_view() == !has_more(e.flags),
            })),
    {
        if self.finished {
            return MultishotStep::Finished;
        }
        match self.handle {
            None => {
                let entry = self.operation.build_submission();
                let handle = reactor.submit_with_room(entry, waker);
                self.handle = Some(handle);
                MultishotStep::Pending
            },
            Some(handle) => {
                match reactor.drive_operation(handle, waker) {
                    Driven::Pending => MultishotStep::Pending,
                    Driven::Ready(entry) => {
                        let last = !more(entry.flags);
                        self.finished = last;
                        MultishotStep::Item {
                            result: self.operation.process_completion(entry),
                            last,
                            buffered: false,
                        }
                    },
                    Driven::ReadyAgain(entry) => {
                        let last = !more(entry.flags);
                        self.finished = last;
                        MultishotStep::Item {
                            result: self.operation.process_completion(entry),
                            last,
                            buffered: true,
                        }
                    },
                }
            },
        }
    }
}

} // verus!
