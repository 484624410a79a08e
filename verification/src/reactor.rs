//! The reactor: it owns the per-operation slot table and the submission
//! ring's pending tail, assigns stable identifiers to in-flight operations,
//! routes completions back to the task that submitted them, and supports
//! both oneshot and multishot completion semantics.
//!
//! The kernel side of the ring stays with the caller: `submit_operation`
//! queues a stamped submission description (or reports that the ring must
//! be flushed first), `plan_sync` picks the synchronization step a tick
//! must take, and `fold_completion` folds one reaped completion entry into
//! its slot, handing back the waker to signal. Every contract is stated
//! over the abstract slot views of [`crate::table`], so the delivery-order
//! laws proved there apply to this reactor verbatim.

use vstd::prelude::*;

use std::collections::VecDeque;

use crate::entries::{more, Cqe, Sqe, SubmitError};
use crate::table::{Driven, SlotState, SlotTable, SlotView};

verus! {

/// Strongly typed identifier naming an in-flight operation's slot.
#[derive(Clone, Copy, Debug, PartialEq, Eq, Structural)]
pub struct OperationHandle {
    index: usize,
}

impl OperationHandle {
    /// The slot index the handle names.
    pub closed spec fn index(self) -> int {
        self.index as int
    }

    /// Wrap a raw slot index.
    pub fn from_raw(index: usize) -> (r: OperationHandle)
        ensures
            r.index() == index as int,
    {
        OperationHandle { index }
    }

    /// The raw slot index; also the user-data value stamped on the
    /// operation's submission entry.
    pub fn as_raw(self) -> (r: usize)
        ensures
            r as int == self.index(),
    {
        self.index
    }
}

/// Outcome of a submission attempt.
#[derive(Clone, Copy, Debug, PartialEq, Eq, Structural)]
pub enum Submitted {
    /// The entry was queued on the submission ring.
    Queued(OperationHandle),
    /// The ring was full: the entry is parked in the overflow seat, and the
    /// caller must flush the ring to the kernel and report the outcome to
    /// [`Reactor::finish_flush`].
    NeedsFlush(OperationHandle),
}

/// The kernel synchronization step a tick must take before reaping
/// completions.
#[derive(Clone, Copy, Debug, PartialEq, Eq, Structural)]
pub enum SyncAction {
    /// The completion ring is empty: submit pending entries and block until
    /// at least one completion arrives.
    WaitOne,
    /// Completions are already waiting and submissions are pending: submit
    /// them without blocking.
    Flush,
    /// Completions are waiting and nothing is pending: no kernel call.
    NoSync,
}

/// The reactor: slot table, the not-yet-flushed tail of the submission
/// ring, the overflow seat used while a full ring is being flushed, and the
/// ring's capacity in entries.
pub struct Reactor<W> {
    slots: SlotTable<W>,
    pending: Vec<Sqe>,
    overflow: Option<Sqe>,
    capacity: usize,
}

/// `sqe` with the slot key stamped into its user-data field, which the
/// kernel echoes on every completion of the operation.
pub open spec fn stamped(sqe: Sqe, key: int) -> Sqe {
    Sqe { op: sqe.op, user_data: key as u64 }
}

/// The slot views after folding a batch of reaped completions in, oldest
/// first, each into the slot its user data names.
pub open spec fn models_after_folds<W>(
    models: Map<int, SlotView<W>>,
    entries: Seq<Cqe>,
) -> Map<int, SlotView<W>>
    decreases entries.len(),
{
    if entries.len() == 0 {
        models
    } else {
        let key = entries[0].user_data as int;
        models_after_folds(
            models.insert(key, models[key].after_fold(entries[0])),
            entries.drop_first(),
        )
    }
}

/// The wakers a batch of folds releases, in fold order: one per
/// completion that lands on a waiting slot.
pub open spec fn wakers_of_folds<W>(models: Map<int, SlotView<W>>, entries: Seq<Cqe>) -> Seq<W>
    decreases entries.len(),
{
    if entries.len() == 0 {
        Seq::empty()
    } else {
        let key = entries[0].user_data as int;
        let released = match models[key].fold_waker() {
            Some(waker) => seq![waker],
            None => Seq::<W>::empty(),
        };
        released + wakers_of_folds(
            models.insert(key, models[key].after_fold(entries[0])),
            entries.drop_first(),
        )
    }
}

/// Folding a batch never changes which slots are live: every completion
/// lands in an existing slot and leaves it in place.
pub proof fn lemma_folds_preserve_liveness<W>(models: Map<int, SlotView<W>>, entries: Seq<Cqe>)
    requires
        forall|i: int|
            0 <= i < entries.len() ==> models.dom().contains(#[trigger] entries[i].user_data as int),
    ensures
        models_after_folds(models, entries).dom() == models.dom(),
    decreases entries.len(),
{
    if entries.len() > 0 {
        let key = entries[0].user_data as int;
        let next = models.insert(key, models[key].after_fold(entries[0]));
        assert(next.dom() =~= models.dom());
        assert(forall|i: int|
            0 <= i < entries.drop_first().len() ==> next.dom().contains(
                #[trigger] entries.drop_first()[i].user_data as int,
            ));
        lemma_folds_preserve_liveness(next, entries.drop_first());
    }
}

/// Appending one completion to a batch folds it last.
pub proof fn lemma_folds_snoc<W>(models: Map<int, SlotView<W>>, entries: Seq<Cqe>, entry: Cqe)
    ensures
        models_after_folds(models, entries.push(entry)) == models_after_folds(
            models,
            entries,
        ).insert(
            entry.user_data as int,
            models_after_folds(models, entries)[entry.user_data as int].after_fold(entry),
        ),
        wakers_of_folds(models, entries.push(entry)) == wakers_of_folds(models, entries) + (
        match models_after_folds(models, entries)[entry.user_data as int].fold_waker() {
            Some(waker) => seq![waker],
            None => Seq::<W>::empty(),
        }),
    decreases entries.len(),
{
    reveal_with_fuel(models_after_folds, 3);
    reveal_with_fuel(wakers_of_folds, 3);
    let snoc = entries.push(entry);
    if entries.len() == 0 {
        assert(snoc.len() == 1);
        assert(snoc[0] == entry);
        assert(snoc.drop_first() =~= Seq::<Cqe>::empty());
        assert(models_after_folds(models, snoc) == models.insert(
            entry.user_data as int,
            models[entry.user_data as int].after_fold(entry),
        ));
        assert(wakers_of_folds(models, snoc) =~= wakers_of_folds(models, entries) + (
        match models[entry.user_data as int].fold_waker() {
            Some(waker) => seq![waker],
            None => Seq::<W>::empty(),
        }));
    } else {
        let key = entries[0].user_data as int;
        let next = models.insert(key, models[key].after_fold(entries[0]));
        assert(snoc[0] == entries[0]);
        assert(snoc.drop_first() =~= entries.drop_first().push(entry));
        lemma_folds_snoc(next, entries.drop_first(), entry);
        assert(models_after_folds(models, snoc) == models_after_folds(
            next,
            entries.drop_first().push(entry),
        ));
        assert(models_after_folds(models, entries) == models_after_folds(
            next,
            entries.drop_first(),
        ));
        assert(wakers_of_folds(models, snoc) =~= wakers_of_folds(models, entries) + (
        match models_after_folds(models, entries)[entry.user_data as int].fold_waker() {
            Some(waker) => seq![waker],
            None => Seq::<W>::empty(),
        }));
    }
}

impl<W> Reactor<W> {
    /// The live slots, abstracted to their views.
    pub closed spec fn slot_models(self) -> Map<int, SlotView<W>> {
        self.slots.entries()
    }

    /// The submission entries queued but not yet flushed to the kernel.
    pub closed spec fn pending_view(self) -> Seq<Sqe> {
        self.pending@
    }

    /// The entry parked while a full ring is flushed, if any.
    pub closed spec fn overflow_view(self) -> Option<Sqe> {
        self.overflow
    }

    /// The submission ring's capacity in entries.
    pub closed spec fn capacity_view(self) -> int {
        self.capacity as int
    }

    /// The reactor's invariant: the ring holds at least one entry, the
    /// pending tail never exceeds it, and the overflow seat is occupied
    /// only while the ring is full.
    pub open spec fn wf(self) -> bool {
        &&& self.capacity_view() >= 1
        &&& self.pending_view().len() <= self.capacity_view()
        &&& (self.overflow_view() is Some ==> self.pending_view().len()
            == self.capacity_view())
    }

    /// Whether `key` names a live slot.
    pub open spec fn slot_live(self, key: int) -> bool {
        self.slot_models().dom().contains(key)
    }

    /// Whether a completion carrying `user_data` can be routed to a live
    /// slot.
    pub open spec fn routes(self, user_data: u64) -> bool {
        user_data <= usize::MAX as u64 && self.slot_live(user_data as int)
    }

    /// Whether the submission ring has room for one more entry.
    pub open spec fn has_room_spec(self) -> bool {
        self.pending_view().len() < self.capacity_view()
    }

    /// A fresh reactor over a ring of `capacity` entries.
    pub fn new(capacity: usize) -> (r: Reactor<W>)
        requires
            capacity >= 1,
        ensures
            r.wf(),
            r.slot_models() == Map::<int, SlotView<W>>::empty(),
            r.pending_view() == Seq::<Sqe>::empty(),
            r.overflow_view() is None,
            r.capacity_view() == capacity as int,
    {
        Reactor { slots: SlotTable::new(), pending: Vec::new(), overflow: None, capacity }
    }

    /// Whether the submission ring has room for one more entry.
    pub fn has_room(&self) -> (r: bool)
        ensures
            r == self.has_room_spec(),
    {
        self.pending.len() < self.capacity
    }

    /// The submission entries queued but not yet flushed to the kernel, in
    /// queueing order.
    pub fn pending_entries(&self) -> (r: &Vec<Sqe>)
        ensures
            r@ == self.pending_view(),
    {
        &self.pending
    }

    /// Whether a flush is owed before [`Reactor::finish_flush`] is called.
    pub fn flush_due(&self) -> (r: bool)
        ensures
            r == (self.overflow_view() is Some),
    {
        self.overflow.is_some()
    }

    /// Whether a completion carrying `user_data` names a live slot.
    pub fn is_live(&self, user_data: u64) -> (r: bool)
        ensures
            r == self.routes(user_data),
    {
        if user_data <= usize::MAX as u64 {
            self.slots.contains_key(user_data as usize)
        } else {
            false
        }
    }

    /// Register a new operation and queue its submission entry.
    ///
    /// A new slot is inserted in the waiting state under a fresh
    /// identifier, which is stamped into the entry's user-data field. The
    /// stamped entry is queued on the ring when there is room; on a full
    /// ring it is parked in the overflow seat and the caller must flush the
    /// ring to the kernel, then report the outcome to
    /// [`Reactor::finish_flush`]. Either way the slot stays registered.
    pub fn submit_operation(&mut self, sqe: Sqe, waker: W) -> (outcome: Submitted)
        requires
            old(self).wf(),
            old(self).overflow_view() is None,
        ensures
            final(self).wf(),
            final(self).capacity_view() == old(self).capacity_view(),
            (outcome matches Submitted::Queued(handle) ==> old(self).has_room_spec()
                && !old(self).slot_live(handle.index())
                && final(self).slot_models() == old(self).slot_models().insert(
                handle.index(),
                SlotView::Parked(waker),
            )
                && final(self).pending_view() == old(self).pending_view().push(
                stamped(sqe, handle.index()),
            )
                && final(self).overflow_view() is None),
            (outcome matches Submitted::NeedsFlush(handle) ==> !old(self).has_room_spec()
                && !old(self).slot_live(handle.index())
                && final(self).slot_models() == old(self).slot_models().insert(
                handle.index(),
                SlotView::Parked(waker),
            )
                && final(self).pending_view() == old(self).pending_view()
                && final(self).overflow_view() == Some(stamped(sqe, handle.index()))),
    {
        let key = self.slots.insert(SlotState::Waiting(waker));
        let entry = Sqe { op: sqe.op, user_data: key as u64 };
        let handle = OperationHandle { index: key };
        if self.pending.len() < self.capacity {
            self.pending.push(entry);
            Submitted::Queued(handle)
        } else {
            self.overflow = Some(entry);
            Submitted::NeedsFlush(handle)
        }
    }

    /// Register a new operation on a ring known to have room; the entry is
    /// always queued directly.
    pub fn submit_with_room(&mut self, sqe: Sqe, waker: W) -> (handle: OperationHandle)
        requires
            old(self).wf(),
            old(self).overflow_view() is None,
            old(self).has_room_spec(),
        ensures
            final(self).wf(),
            final(self).capacity_view() == old(self).capacity_view(),
            !old(self).slot_live(handle.index()),
            final(self).slot_models() == old(self).slot_models().insert(
                handle.index(),
                SlotView::Parked(waker),
            ),
            final(self).pending_view() == old(self).pending_view().push(
                stamped(sqe, handle.index()),
            ),
            final(self).overflow_view() is None,
    {
        match self.submit_operation(sqe, waker) {
            Submitted::Queued(handle) => handle,
            Submitted::NeedsFlush(_) => vstd::pervasive::unreached(),
        }
    }

    /// Report the outcome of the flush a full ring demanded. When the
    /// kernel accepted the flush, the ring is empty again and the parked
    /// entry is queued; when it failed, the parked entry is dropped and the
    /// submission is refused — its slot stays registered but nothing will
    /// complete it.
    pub fn finish_flush(&mut self, accepted: bool) -> (r: Result<(), SubmitError>)
        requires
            old(self).wf(),
            old(self).overflow_view() is Some,
        ensures
            final(self).wf(),
            final(self).slot_models() == old(self).slot_models(),
            final(self).capacity_view() == old(self).capacity_view(),
            final(self).overflow_view() is None,
            accepted ==> r == Ok::<(), SubmitError>(()) && final(self).pending_view()
                == seq![old(self).overflow_view()->0],
            !accepted ==> r == Err::<(), SubmitError>(SubmitError::SubmissionFull)
                && final(self).pending_view() == old(self).pending_view(),
    {
        let parked = self.overflow.take();
        if accepted {
            self.pending.clear();
            self.pending.push(parked.unwrap());
            Ok(())
        } else {
            Err(SubmitError::SubmissionFull)
        }
    }

    /// Note that every pending submission entry was handed to the kernel by
    /// a successful flush or wait.
    pub fn note_flushed(&mut self)
        requires
            old(self).wf(),
            old(self).overflow_view() is None,
        ensures
            final(self).wf(),
            final(self).slot_models() == old(self).slot_models(),
            final(self).capacity_view() == old(self).capacity_view(),
            final(self).overflow_view() is None,
            final(self).pending_view() == Seq::<Sqe>::empty(),
    {
        self.pending.clear();
    }

    /// The kernel synchronization step one tick takes: block for a
    /// completion when none is waiting, flush pending submissions when
    /// completions are already waiting, and otherwise make no kernel call.
    pub fn plan_sync(&self, completion_empty: bool) -> (action: SyncAction)
        ensures
            action == (if completion_empty {
                SyncAction::WaitOne
            } else if self.pending_view().len() > 0 {
                SyncAction::Flush
            } else {
                SyncAction::NoSync
            }),
    {
        if completion_empty {
            SyncAction::WaitOne
        } else if self.pending.len() > 0 {
            SyncAction::Flush
        } else {
            SyncAction::NoSync
        }
    }

    /// Poll the slot named by `operation` on behalf of the task carrying
    /// `waker`, per the slot transition [`SlotView::after_drive`]: a
    /// waiting slot parks the waker; a buffered completion is claimed
    /// oldest-first, with a reschedule request while more stay buffered;
    /// and claiming a terminal completion — MORE flag clear — as the last
    /// buffered one removes the slot upon that delivery.
    pub fn drive_operation(&mut self, operation: OperationHandle, waker: W) -> (verdict: Driven)
        requires
            old(self).wf(),
            old(self).slot_live(operation.index()),
        ensures
            final(self).wf(),
            verdict == old(self).slot_models()[operation.index()].drive_verdict(),
            (match old(self).slot_models()[operation.index()].after_drive(waker) {
                Some(next) => final(self).slot_models() == old(self).slot_models().insert(
                    operation.index(),
                    next,
                ),
                None => final(self).slot_models() == old(self).slot_models().remove(
                    operation.index(),
                ),
            }),
            final(self).pending_view() == old(self).pending_view(),
            final(self).overflow_view() == old(self).overflow_view(),
            final(self).capacity_view() == old(self).capacity_view(),
    {
        let key = operation.as_raw();
        proof {
            self.slots.lemma_live_in_bounds(key as int);
        }
        let state = self.slots.remove(key);
        match state {
            SlotState::Waiting(_) => {
                self.slots.place(key, SlotState::Waiting(waker));
                Driven::Pending
            },
            SlotState::Completed(entry) => {
                if more(entry.flags) {
                    self.slots.place(key, SlotState::Waiting(waker));
                }
                Driven::Ready(entry)
            },
            SlotState::Unclaimed(mut queue) => {
                let front = queue.pop_front();
                match front {
                    None => {
                        self.slots.place(key, SlotState::Unclaimed(queue));
                        Driven::Pending
                    },
                    Some(entry) => {
                        if queue.len() > 0 {
                            self.slots.place(key, SlotState::Unclaimed(queue));
                            Driven::ReadyAgain(entry)
                        } else if more(entry.flags) {
                            self.slots.place(key, SlotState::Waiting(waker));
                            Driven::Ready(entry)
                        } else {
                            Driven::Ready(entry)
                        }
                    },
                }
            },
        }
    }

    /// Fold one reaped completion into the slot its user data names, per
    /// the slot transition [`SlotView::after_fold`]: a waiting slot
    /// becomes completed and its waker is handed back to be signalled; a
    /// completed or unclaimed slot buffers the entry behind the earlier
    /// ones, preserving kernel order.
    pub fn fold_completion(&mut self, entry: Cqe) -> (woken: Option<W>)
        requires
            old(self).wf(),
            old(self).routes(entry.user_data),
        ensures
            final(self).wf(),
            final(self).slot_models() == old(self).slot_models().insert(
                entry.user_data as int,
                old(self).slot_models()[entry.user_data as int].after_fold(entry),
            ),
            woken == old(self).slot_models()[entry.user_data as int].fold_waker(),
            final(self).pending_view() == old(self).pending_view(),
            final(self).overflow_view() == old(self).overflow_view(),
            final(self).capacity_view() == old(self).capacity_view(),
    {
        let key = entry.user_data as usize;
        proof {
            self.slots.lemma_live_in_bounds(key as int);
        }
        let state = self.slots.remove(key);
        match state {
            SlotState::Waiting(waker) => {
                self.slots.place(key, SlotState::Completed(entry));
                proof {
                    assert(seq![entry] =~= Seq::<Cqe>::empty().push(entry));
                }
                Some(waker)
            },
            SlotState::Completed(first) => {
                let mut queue: VecDeque<Cqe> = VecDeque::new();
                queue.push_back(first);
                queue.push_back(entry);
                self.slots.place(key, SlotState::Unclaimed(queue));
                proof {
                    assert(queue@ =~= seq![first].push(entry));
                }
                None
            },
            SlotState::Unclaimed(mut queue) => {
                queue.push_back(entry);
                self.slots.place(key, SlotState::Unclaimed(queue));
                None
            },
        }
    }

    /// Fold a whole batch of reaped completions, oldest first, as one tick
    /// does after synchronizing with the kernel. Returns the wakers to
    /// signal, in fold order; the caller wakes each so the tasks run on
    /// the executor tick that follows.
    #[verifier::loop_isolation(false)]
    pub fn drain_completions(&mut self, entries: &Vec<Cqe>) -> (wakers: Vec<W>)
        requires
            old(self).wf(),
            forall|i: int|
                0 <= i < entries@.len() ==> old(self).routes(#[trigger] entries@[i].user_data),
        ensures
            final(self).wf(),
            final(self).slot_models() == models_after_folds(old(self).slot_models(), entries@),
            wakers@ == wakers_of_folds(old(self).slot_models(), entries@),
            final(self).pending_view() == old(self).pending_view(),
            final(self).overflow_view() == old(self).overflow_view(),
            final(self).capacity_view() == old(self).capacity_view(),
    {
        let ghost initial = *self;
        let mut wakers: Vec<W> = Vec::new();
        let mut i: usize = 0;
        while i < entries.len()
            invariant
                self.wf(),
                i <= entries@.len(),
                self.slot_models() == models_after_folds(
                    initial.slot_models(),
                    entries@.take(i as int),
                ),
                wakers@ == wakers_of_folds(initial.slot_models(), entries@.take(i as int)),
                self.pending_view() == initial.pending_view(),
                self.overflow_view() == initial.overflow_view(),
                self.capacity_view() == initial.capacity_view(),
            decreases entries@.len() - i,
        {
            proof {
                assert(forall|j: int|
                    0 <= j < entries@.take(i as int).len() ==> initial.slot_models().dom().contains(
                        #[trigger] entries@.take(i as int)[j].user_data as int,
                    ));
                lemma_folds_preserve_liveness(initial.slot_models(), entries@.take(i as int));
                assert(self.routes(entries@[i as int].user_data));
                lemma_folds_snoc(initial.slot_models(), entries@.take(i as int), entries@[i as int]);
                assert(entries@.take(i as int).push(entries@[i as int]) =~= entries@.take(
                    i as int + 1,
                ));
            }
            let entry = entries[i];
            match self.fold_completion(entry) {
                Some(waker) => wakers.push(waker),
                None => (),
            }
            i = i + 1;
        }
        proof {
            assert(entries@.take(entries@.len() as int) =~= entries@);
        }
        wakers
    }
}

} // verus!
