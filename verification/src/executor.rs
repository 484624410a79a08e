//! The executor's runnable queue: a strict FIFO of scheduled continuations.
//!
//! The host runtime wraps this queue behind a shared handle: spawning wires
//! a task's schedule callback to [`Executor::schedule`], and one tick pops
//! runnables with [`Executor::next_runnable`] and runs each until the queue
//! is empty — so continuations enqueued during a tick are drained by the
//! same tick, in insertion order, with no priority beyond it.

use vstd::prelude::*;

use std::collections::VecDeque;

verus! {

/// A FIFO queue of runnable continuations.
pub struct Executor<R> {
    tasks: VecDeque<R>,
}

impl<R> Executor<R> {
    /// The scheduled runnables, front first.
    pub closed spec fn tasks_view(self) -> Seq<R> {
        self.tasks@
    }

    /// An executor with nothing scheduled.
    pub fn new() -> (r: Executor<R>)
        ensures
            r.tasks_view() == Seq::<R>::empty(),
    {
        Executor { tasks: VecDeque::new() }
    }

    /// Enqueue a runnable behind every earlier one.
    pub fn schedule(&mut self, runnable: R)
        ensures
            final(self).tasks_view() == old(self).tasks_view().push(runnable),
    {
        self.tasks.push_back(runnable);
    }

    /// Pop the oldest scheduled runnable, if any.
    pub fn next_runnable(&mut self) -> (r: Option<R>)
        ensures
            old(self).tasks_view().len() == 0 ==> r is None && final(self).tasks_view() == old(
                self,
            ).tasks_view(),
            old(self).tasks_view().len() > 0 ==> (match r {
                Some(runnable) => runnable == old(self).tasks_view()[0] && final(self).tasks_view()
                    == old(self).tasks_view().drop_first(),
                None => false,
            }),
    {
        self.tasks.pop_front()
    }

    /// How many runnables are scheduled.
    pub fn task_count(&self) -> (r: usize)
        ensures
            r as int == self.tasks_view().len(),
    {
        self.tasks.len()
    }
}

} // verus!
