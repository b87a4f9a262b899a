use vstd::prelude::*;

verus! {

/// A storage location with one owner, read by copying the value out and
/// written by replacing it whole; no reference to the interior ever escapes.
pub struct Cell<T> {
    value: T,
}

impl<T> View for Cell<T> {
    type V = T;

    /// The value currently stored.
    closed spec fn view(&self) -> T {
        self.value
    }
}

impl<T> Cell<T> {
    /// Makes a cell holding `value`.
    pub fn new(value: T) -> (c: Self)
        ensures
            c@ == value,
    {
        Cell { value }
    }

    /// Replaces the stored value by `value`; the previous value is dropped.
    pub fn set(&mut self, value: T)
        ensures
            final(self)@ == value,
    {
        self.value = value;
    }

    /// Returns a copy of the stored value.
    pub fn get(&self) -> (r: T) where T: Copy
        ensures
            r == self@,
    {
        self.value
    }
}

/// A read that follows a write returns exactly what was written: whatever
/// the cell held before, once `set(v)` has produced `after`, `get` on
/// `after` yields `v`.
pub proof fn lemma_get_after_set<T: Copy>(after: Cell<T>, v: T, r: T)
    requires
        after@ == v,
        r == after@,
    ensures
        r == v,
{
}

} // verus!
