//! Per-operation slot states and the arena that stores them.
//!
//! Every in-flight operation owns one slot, named by a dense index that is
//! embedded into the kernel user-data field of its submission. A slot is
//! *waiting* while no completion has arrived, holds one *completed* entry
//! once the first completion lands, and buffers *unclaimed* entries in FIFO
//! order when several completions arrive between two polls (only multishot
//! operations produce more than one). The abstract view of a slot —
//! [`SlotView`] — is either parked with a waker or ripe with the queue of
//! buffered completions, and the transition functions on that view are what
//! the reactor's contracts and the delivery-order laws speak about.

use vstd::prelude::*;

use std::collections::VecDeque;

use crate::entries::{has_more, Cqe};

verus! {

/// Internal state of a submitted operation.
pub enum SlotState<W> {
    /// Submitted, no completion observed; holds the waker to signal.
    Waiting(W),
    /// Exactly one completion has arrived and no task has observed it yet.
    Completed(Cqe),
    /// Two or more completions arrived between polls; oldest first.
    Unclaimed(VecDeque<Cqe>),
}

/// Abstract state of a slot: parked with a waker, or ripe with the queue
/// of buffered completions (possibly empty, once a buffered queue has been
/// drained without a new waker being parked).
pub enum SlotView<W> {
    /// No completion is buffered; the waker will be signalled when one
    /// arrives.
    Parked(W),
    /// The completions that arrived and were not yet claimed, oldest first.
    Ripe(Seq<Cqe>),
}

impl<W> View for SlotState<W> {
    type V = SlotView<W>;

    open spec fn view(&self) -> SlotView<W> {
        match self {
            SlotState::Waiting(w) => SlotView::Parked(*w),
            SlotState::Completed(e) => SlotView::Ripe(seq![*e]),
            SlotState::Unclaimed(q) => SlotView::Ripe(q@),
        }
    }
}

impl<W> SlotState<W> {
    /// The parked waker. The slot must be waiting: the precondition rules
    /// out what a runtime check would otherwise have to abort on.
    pub fn assume_as_waiting(self) -> (r: W)
        requires
            self is Waiting,
        ensures
            self@ == SlotView::Parked(r),
    {
        match self {
            SlotState::Waiting(waker) => waker,
            _ => vstd::pervasive::unreached::<W>(),
        }
    }

    /// The single unobserved completion. The slot must be completed: the
    /// precondition rules out what a runtime check would otherwise have to
    /// abort on.
    pub fn assume_as_completed(self) -> (r: Cqe)
        requires
            self is Completed,
        ensures
            self@ == SlotView::<W>::Ripe(seq![r]),
    {
        match self {
            SlotState::Completed(entry) => entry,
            _ => vstd::pervasive::unreached::<Cqe>(),
        }
    }

    /// The buffered completions, for appending. The slot must be
    /// unclaimed: the precondition rules out what a runtime check would
    /// otherwise have to abort on.
    pub fn assume_as_mut_unclaimed(&mut self) -> (r: &mut VecDeque<Cqe>)
        requires
            *old(self) is Unclaimed,
        ensures
            old(self)@ == SlotView::<W>::Ripe(r@),
            final(self)@ == SlotView::<W>::Ripe(final(r)@),
            *final(self) is Unclaimed,
    {
        match self {
            SlotState::Unclaimed(entries) => entries,
            _ => vstd::pervasive::unreached::<&mut VecDeque<Cqe>>(),
        }
    }
}

/// What a single poll of a slot reports.
#[derive(Clone, Copy, Debug, PartialEq, Eq, Structural)]
pub enum Driven {
    /// Nothing to claim; the waker was parked.
    Pending,
    /// One completion, and nothing further is buffered.
    Ready(Cqe),
    /// One completion, with more already buffered: the caller must
    /// reschedule itself and poll again.
    ReadyAgain(Cqe),
}

impl<W> SlotView<W> {
    /// The completions buffered in the slot, oldest first.
    pub open spec fn queued(self) -> Seq<Cqe> {
        match self {
            SlotView::Parked(_) => Seq::empty(),
            SlotView::Ripe(q) => q,
        }
    }

    /// The slot after one completion `e` is folded in: a parked slot
    /// becomes ripe with `e`, a ripe slot buffers `e` behind the others.
    pub open spec fn after_fold(self, e: Cqe) -> SlotView<W> {
        SlotView::Ripe(self.queued().push(e))
    }

    /// The waker a fold releases: the parked one, if any.
    pub open spec fn fold_waker(self) -> Option<W> {
        match self {
            SlotView::Parked(w) => Some(w),
            SlotView::Ripe(_) => None,
        }
    }

    /// What polling the slot reports: the oldest buffered completion, with
    /// a reschedule request when more remain buffered behind it.
    pub open spec fn drive_verdict(self) -> Driven {
        if self.queued().len() == 0 {
            Driven::Pending
        } else if self.queued().len() > 1 {
            Driven::ReadyAgain(self.queued()[0])
        } else {
            Driven::Ready(self.queued()[0])
        }
    }

    /// The slot after one poll by a task carrying `waker`: a parked or
    /// drained slot parks `waker`; claiming a completion drops it from the
    /// queue; and claiming the last one removes the slot (`None`) exactly
    /// when that completion was terminal (its MORE flag clear).
    pub open spec fn after_drive(self, waker: W) -> Option<SlotView<W>> {
        match self {
            SlotView::Parked(_) => Some(SlotView::Parked(waker)),
            SlotView::Ripe(q) => if q.len() == 0 {
                Some(SlotView::Ripe(q))
            } else if q.len() > 1 {
                Some(SlotView::Ripe(q.drop_first()))
            } else if has_more(q[0].flags) {
                Some(SlotView::Parked(waker))
            } else {
                None
            },
        }
    }
}

/// The slot after folding in a whole sequence of completions, oldest
/// first.
pub open spec fn fold_all<W>(m: SlotView<W>, es: Seq<Cqe>) -> SlotView<W>
    decreases es.len(),
{
    if es.len() == 0 {
        m
    } else {
        fold_all(m.after_fold(es[0]), es.drop_first())
    }
}

/// Every completion the slot hands out by repeated polling, oldest first,
/// until the slot pends or is removed.
pub open spec fn pop_all<W>(m: SlotView<W>, waker: W) -> Seq<Cqe>
    decreases m.queued().len(),
{
    match m.drive_verdict() {
        Driven::Pending => Seq::empty(),
        Driven::Ready(e) => match m.after_drive(waker) {
            Some(next) => seq![e] + pop_all(next, waker),
            None => seq![e],
        },
        Driven::ReadyAgain(e) => match m.after_drive(waker) {
            Some(next) => seq![e] + pop_all(next, waker),
            None => seq![e],
        },
    }
}

/// Folding completions buffers them behind what was queued, in arrival
/// order, and never un-parks or removes the slot by itself.
pub proof fn lemma_fold_preserves_order<W>(m: SlotView<W>, es: Seq<Cqe>)
    ensures
        fold_all(m, es).queued() == m.queued() + es,
    decreases es.len(),
{
    if es.len() == 0 {
        assert(m.queued() + es =~= m.queued());
    } else {
        lemma_fold_preserves_order(m.after_fold(es[0]), es.drop_first());
        assert(m.queued().push(es[0]) + es.drop_first() =~= m.queued() + es);
    }
}

/// Repeated polling hands out exactly the buffered completions, in the
/// order they were buffered.
pub proof fn lemma_pop_all_in_order<W>(m: SlotView<W>, waker: W)
    ensures
        pop_all(m, waker) == m.queued(),
    decreases m.queued().len(),
{
    match m.drive_verdict() {
        Driven::Pending => {
            assert(m.queued().len() == 0);
            assert(pop_all(m, waker) =~= m.queued());
        },
        Driven::Ready(e) => {
            match m.after_drive(waker) {
                Some(next) => {
                    lemma_pop_all_in_order(next, waker);
                    assert(seq![e] + next.queued() =~= m.queued());
                },
                None => {
                    assert(seq![e] =~= m.queued());
                },
            }
        },
        Driven::ReadyAgain(e) => {
            match m.after_drive(waker) {
                Some(next) => {
                    lemma_pop_all_in_order(next, waker);
                    assert(seq![e] + next.queued() =~= m.queued());
                },
                None => {
                    assert(seq![e] =~= m.queued());
                },
            }
        },
    }
}

/// The task that submitted an operation, if it keeps polling, receives the
/// completions in kernel order: folding arrivals `es` into a freshly
/// parked slot and then draining it yields exactly `es`.
pub proof fn lemma_kernel_order_delivery<W>(initial: W, es: Seq<Cqe>, waker: W)
    ensures
        pop_all(fold_all(SlotView::Parked(initial), es), waker) == es,
{
    lemma_fold_preserves_order(SlotView::Parked(initial), es);
    lemma_pop_all_in_order(fold_all(SlotView::Parked(initial), es), waker);
    assert(Seq::<Cqe>::empty() + es =~= es);
}

/// Claiming a terminal completion — one whose MORE flag is clear — as the
/// last buffered entry removes the slot upon that delivery.
pub proof fn lemma_terminal_delivery_removes_slot<W>(m: SlotView<W>, waker: W)
    requires
        m.queued().len() == 1,
        !has_more(m.queued()[0].flags),
    ensures
        m.drive_verdict() == Driven::Ready(m.queued()[0]),
        m.after_drive(waker) is None,
{
}

/// A future dropped before its terminal completion never unregisters its
/// slot: folds keep the slot present (and keep buffering), whatever
/// arrives; only a poll can remove it.
pub proof fn lemma_dropped_future_slot_persists<W>(m: SlotView<W>, es: Seq<Cqe>)
    ensures
        fold_all(m, es).queued().len() == m.queued().len() + es.len(),
{
    lemma_fold_preserves_order(m, es);
}

/// Dense arena of operation slots. Indices of removed slots stay allocated
/// and are reused by later insertions, so an identifier is stable for the
/// whole life of its operation and recycled only after removal.
pub struct SlotTable<W> {
    slots: Vec<Option<SlotState<W>>>,
}

/// Mutable access to one cell of the backing vector.
fn cell_mut<W>(v: &mut Vec<Option<SlotState<W>>>, i: usize) -> (r: &mut Option<SlotState<W>>)
    requires
        i < old(v)@.len(),
    ensures
        *r == old(v)@[i as int],
        final(v)@ == old(v)@.update(i as int, *final(r)),
{
    &mut v[i]
}

impl<W> SlotTable<W> {
    /// The abstract contents: live indices mapped to their slot's view.
    pub closed spec fn entries(self) -> Map<int, SlotView<W>> {
        Map::new(
            |i: int| 0 <= i < self.slots@.len() && self.slots@[i] is Some,
            |i: int| (self.slots@[i]->0)@,
        )
    }

    /// How many indices the arena has ever allocated; live or vacant, every
    /// index is below this bound.
    pub closed spec fn width(self) -> nat {
        self.slots@.len()
    }

    /// Whether `key` names a live slot.
    pub open spec fn live(self, key: int) -> bool {
        self.entries().dom().contains(key)
    }

    /// A live key lies below the arena's width.
    pub proof fn lemma_live_in_bounds(&self, key: int)
        requires
            self.live(key),
        ensures
            0 <= key < self.width(),
    {
    }

    /// An empty arena.
    pub fn new() -> (t: SlotTable<W>)
        ensures
            t.entries() == Map::<int, SlotView<W>>::empty(),
            t.width() == 0,
    {
        let t = SlotTable { slots: Vec::new() };
        proof {
            assert(t.entries() =~= Map::<int, SlotView<W>>::empty());
        }
        t
    }

    /// Whether `key` names a live slot.
    pub fn contains_key(&self, key: usize) -> (r: bool)
        ensures
            r == self.live(key as int),
    {
        key < self.slots.len() && self.slots[key].is_some()
    }

    /// Store `state` under a fresh key: the lowest vacant index, or a newly
    /// allocated one.
    #[verifier::loop_isolation(false)]
    pub fn insert(&mut self, state: SlotState<W>) -> (key: usize)
        ensures
            !old(self).live(key as int),
            final(self).entries() == old(self).entries().insert(key as int, state@),
            old(self).width() <= final(self).width(),
            (key as int) < final(self).width(),
    {
        let ghost initial = *self;
        let n = self.slots.len();
        let mut i: usize = 0;
        while i < n
            invariant
                *self == initial,
                n == self.slots@.len(),
                i <= n,
                forall|j: int| 0 <= j < i ==> self.slots@[j] is Some,
            decreases n - i,
        {
            if self.slots[i].is_none() {
                let cell = cell_mut(&mut self.slots, i);
                *cell = Some(state);
                proof {
                    assert(self.entries() =~= initial.entries().insert(i as int, state@));
                }
                return i;
            }
            i = i + 1;
        }
        self.slots.push(Some(state));
        proof {
            assert(self.entries() =~= initial.entries().insert(n as int, state@));
        }
        n
    }

    /// Take the slot stored under `key`, leaving the index vacant for
    /// reuse.
    pub fn remove(&mut self, key: usize) -> (r: SlotState<W>)
        requires
            old(self).live(key as int),
        ensures
            r@ == old(self).entries()[key as int],
            final(self).entries() == old(self).entries().remove(key as int),
            final(self).width() == old(self).width(),
    {
        let ghost initial = *self;
        let cell = cell_mut(&mut self.slots, key);
        let taken = cell.take();
        proof {
            assert(self.entries() =~= initial.entries().remove(key as int));
        }
        taken.unwrap()
    }

    /// Store `state` under the vacant index `key`.
    pub fn place(&mut self, key: usize, state: SlotState<W>)
        requires
            (key as int) < old(self).width(),
            !old(self).live(key as int),
        ensures
            final(self).entries() == old(self).entries().insert(key as int, state@),
            final(self).width() == old(self).width(),
    {
        let ghost initial = *self;
        let cell = cell_mut(&mut self.slots, key);
        *cell = Some(state);
        proof {
            assert(self.entries() =~= initial.entries().insert(key as int, state@));
        }
    }
}

} // verus!
