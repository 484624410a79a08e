//! A runtime-checked exclusive-access cell.
//!
//! The reactor and the executor hand out access to their internal tables
//! one holder at a time. [`DangerCell`] models that discipline: taking
//! access moves the value into an [`AccessGuard`] and leaves the cell
//! engaged; releasing the guard puts the value back. The states play the
//! role of a runtime borrow flag — a cell can only be engaged through a
//! guard, and only one guard can exist per cell — but here the discipline
//! is proved rather than checked when the program runs: taking access
//! requires the cell to be free, which is exactly the input on which a
//! runtime check would have to abort.

use vstd::prelude::*;

verus! {

/// A cell whose value may be held by at most one access guard at a time.
pub struct DangerCell<T> {
    storage: Option<T>,
}

/// Witness of exclusive access to a cell's value; owns the value until it
/// is released back.
pub struct AccessGuard<T> {
    value: T,
}

impl<T> DangerCell<T> {
    /// Whether no guard currently holds the cell's value.
    pub closed spec fn is_free(self) -> bool {
        self.storage is Some
    }

    /// The stored value; meaningful only while the cell is free.
    pub closed spec fn value(self) -> T
        recommends
            self.is_free(),
    {
        self.storage->0
    }

    /// A fresh, free cell holding `value`.
    pub fn new(value: T) -> (r: DangerCell<T>)
        ensures
            r.is_free(),
            r.value() == value,
    {
        DangerCell { storage: Some(value) }
    }

    /// Take exclusive access to the stored value. A runtime check would
    /// abort when the cell is already engaged; that input is ruled out by
    /// the precondition instead.
    pub fn assume_unique_access(&mut self) -> (g: AccessGuard<T>)
        requires
            old(self).is_free(),
        ensures
            g.value() == old(self).value(),
            !final(self).is_free(),
    {
        let taken = self.storage.take();
        AccessGuard { value: taken.unwrap() }
    }

    /// Put the guarded value back, freeing the cell.
    pub fn release(&mut self, guard: AccessGuard<T>)
        requires
            !old(self).is_free(),
        ensures
            final(self).is_free(),
            final(self).value() == guard.value(),
    {
        self.storage = Some(guard.into_inner());
    }
}

impl<T> AccessGuard<T> {
    /// The guarded value.
    pub closed spec fn value(self) -> T {
        self.value
    }

    /// Read the guarded value.
    pub fn get(&self) -> (r: &T)
        ensures
            *r == self.value(),
    {
        &self.value
    }

    /// Write the guarded value.
    pub fn get_mut(&mut self) -> (r: &mut T)
        ensures
            *r == old(self).value(),
            final(self).value() == *final(r),
    {
        &mut self.value
    }

    /// Give up the guard, keeping the value.
    pub fn into_inner(self) -> (r: T)
        ensures
            r == self.value(),
    {
        self.value
    }
}

} // verus!
