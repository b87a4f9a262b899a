use vstd::prelude::*;
use crate::cell::Cell;

verus! {

/// How the interior of a `RefCell` is currently lent out.
#[derive(Clone, Copy, Debug, PartialEq, Eq, Structural)]
pub enum RefState {
    /// No view is outstanding.
    Unshared,
    /// This many shared views are outstanding; never zero in a well-formed cell.
    Shared(usize),
    /// Exactly one exclusive view is outstanding.
    Exclusive,
}

/// A state is well formed when a shared count is at least one.
pub open spec fn state_ok(s: RefState) -> bool {
    match s {
        RefState::Shared(n) => n >= 1,
        _ => true,
    }
}

/// Whether a request for a shared view is granted in state `s`.
pub open spec fn can_share(s: RefState) -> bool {
    !(s is Exclusive)
}

/// Whether a request for an exclusive view is granted in state `s`.
pub open spec fn can_exclude(s: RefState) -> bool {
    s is Unshared
}

/// The state after a request for a shared view.
pub open spec fn after_share(s: RefState) -> RefState {
    match s {
        RefState::Unshared => RefState::Shared(1),
        RefState::Shared(n) => RefState::Shared((n + 1) as usize),
        RefState::Exclusive => RefState::Exclusive,
    }
}

/// The state after a request for an exclusive view.
pub open spec fn after_exclude(s: RefState) -> RefState {
    if s is Unshared {
        RefState::Exclusive
    } else {
        s
    }
}

/// The state after one shared view is released.
pub open spec fn after_release_shared(s: RefState) -> RefState {
    match s {
        RefState::Shared(n) => if n == 1 {
            RefState::Unshared
        } else {
            RefState::Shared((n - 1) as usize)
        },
        _ => s,
    }
}

/// The state after the exclusive view is released.
pub open spec fn after_release_exclusive(s: RefState) -> RefState {
    if s is Exclusive {
        RefState::Unshared
    } else {
        s
    }
}

/// One step that the owner of a `RefCell` can take.
#[derive(Clone, Copy, Debug, PartialEq, Eq, Structural)]
pub enum Event {
    /// A call of `RefCell::borrow`.
    Borrow,
    /// A call of `RefCell::borrow_mut`.
    BorrowMut,
    /// A call of `Ref::release` on a held shared view.
    Release,
    /// A call of `RefMut::release` on the held exclusive view.
    ReleaseMut,
}

/// The state after one event, as the contracts of the four calls give it.
pub open spec fn apply(s: RefState, e: Event) -> RefState {
    match e {
        Event::Borrow => after_share(s),
        Event::BorrowMut => after_exclude(s),
        Event::Release => after_release_shared(s),
        Event::ReleaseMut => after_release_exclusive(s),
    }
}

/// The state of a fresh cell after a run of events.
pub open spec fn replay(evs: Seq<Event>) -> RefState
    decreases evs.len(),
{
    if evs.len() == 0 {
        RefState::Unshared
    } else {
        apply(replay(evs.drop_last()), evs.last())
    }
}

/// Shared views granted during a run and not given back, counted from the
/// events: a granted `Borrow` adds one, a `Release` takes one away.
pub open spec fn live_shared(evs: Seq<Event>) -> int
    decreases evs.len(),
{
    if evs.len() == 0 {
        0
    } else {
        let prev = evs.drop_last();
        match evs.last() {
            Event::Borrow => if can_share(replay(prev)) {
                live_shared(prev) + 1
            } else {
                live_shared(prev)
            },
            Event::Release => live_shared(prev) - 1,
            _ => live_shared(prev),
        }
    }
}

/// Exclusive views granted during a run and not given back.
pub open spec fn live_exclusive(evs: Seq<Event>) -> int
    decreases evs.len(),
{
    if evs.len() == 0 {
        0
    } else {
        let prev = evs.drop_last();
        match evs.last() {
            Event::BorrowMut => if can_exclude(replay(prev)) {
                live_exclusive(prev) + 1
            } else {
                live_exclusive(prev)
            },
            Event::ReleaseMut => live_exclusive(prev) - 1,
            _ => live_exclusive(prev),
        }
    }
}

/// A run that one owner can perform: each release gives back a view that it
/// holds (views cannot be copied), and no shared request meets a full count.
pub open spec fn legal(evs: Seq<Event>) -> bool
    decreases evs.len(),
{
    if evs.len() == 0 {
        true
    } else {
        let prev = evs.drop_last();
        legal(prev) && match evs.last() {
            Event::Borrow => replay(prev) != RefState::Shared(usize::MAX),
            Event::BorrowMut => true,
            Event::Release => live_shared(prev) > 0,
            Event::ReleaseMut => live_exclusive(prev) > 0,
        }
    }
}

/// Along any run of one owner, the exclusive view is never live together with
/// any other view, and the borrow state is exactly the count of live views:
/// `Unshared` when none is live, `Shared(n)` when `n` shared views are, and
/// `Exclusive` when the exclusive one is. So every release meets the state it
/// requires, and releasing all shared views, in any order, ends in `Unshared`.
pub proof fn lemma_exclusive_alone(evs: Seq<Event>)
    requires
        legal(evs),
    ensures
        live_shared(evs) >= 0,
        0 <= live_exclusive(evs) <= 1,
        live_exclusive(evs) == 1 ==> live_shared(evs) == 0,
        state_ok(replay(evs)),
        replay(evs) is Unshared <==> (live_shared(evs) == 0 && live_exclusive(evs) == 0),
        replay(evs) is Exclusive <==> live_exclusive(evs) == 1,
        replay(evs) is Shared ==> replay(evs)->Shared_0 == live_shared(evs),
    decreases evs.len(),
{
    if evs.len() > 0 {
        lemma_exclusive_alone(evs.drop_last());
    }
}

/// A value with one owner that lends out shared or exclusive views, checked
/// at run time: any number of shared views, or one exclusive view, never both.
pub struct RefCell<T> {
    value: T,
    state: Cell<RefState>,
}

/// A granted shared view of a `RefCell`. It cannot be copied: each one stands
/// for one unit of the shared count, given back by `release`.
pub struct Ref<T> {
    lent: core::marker::PhantomData<T>,
}

/// The granted exclusive view of a `RefCell`. It cannot be copied, and is
/// given back by `release`.
pub struct RefMut<T> {
    lent: core::marker::PhantomData<T>,
}

impl<T> RefCell<T> {
    /// The value held.
    pub closed spec fn value(&self) -> T {
        self.value
    }

    /// The current borrow state.
    pub closed spec fn borrow_state(&self) -> RefState {
        self.state@
    }

    /// The borrow state is well formed.
    pub open spec fn wf(&self) -> bool {
        state_ok(self.borrow_state())
    }

    /// Makes a cell holding `value`, with no view outstanding.
    pub fn new(value: T) -> (c: Self)
        ensures
            c.value() == value,
            c.borrow_state() == RefState::Unshared,
            c.wf(),
    {
        RefCell { value, state: Cell::new(RefState::Unshared) }
    }

    /// The current borrow state.
    pub fn state(&self) -> (r: RefState)
        ensures
            r == self.borrow_state(),
    {
        self.state.get()
    }

    /// Asks for the exclusive view: granted exactly when no view is
    /// outstanding, and the cell is then `Exclusive`; otherwise nothing changes.
    pub fn borrow_mut(&mut self) -> (r: Option<RefMut<T>>)
        requires
            old(self).wf(),
        ensures
            r is Some <==> can_exclude(old(self).borrow_state()),
            final(self).borrow_state() == after_exclude(old(self).borrow_state()),
            final(self).value() == old(self).value(),
            final(self).wf(),
    {
        if let RefState::Unshared = self.state.get() {
            self.state.set(RefState::Exclusive);
            Some(RefMut { lent: core::marker::PhantomData })
        } else {
            None
        }
    }

    /// Asks for a shared view: granted unless the exclusive view is
    /// outstanding, and the shared count then grows by one; otherwise nothing
    /// changes. The count must have room to grow.
    pub fn borrow(&mut self) -> (r: Option<Ref<T>>)
        requires
            old(self).wf(),
            old(self).borrow_state() != RefState::Shared(usize::MAX),
        ensures
            r is Some <==> can_share(old(self).borrow_state()),
            final(self).borrow_state() == after_share(old(self).borrow_state()),
            final(self).value() == old(self).value(),
            final(self).wf(),
    {
        match self.state.get() {
            RefState::Unshared => {
                self.state.set(RefState::Shared(1));
                Some(Ref { lent: core::marker::PhantomData })
            },
            RefState::Shared(n) => {
                self.state.set(RefState::Shared(n + 1));
                Some(Ref { lent: core::marker::PhantomData })
            },
            RefState::Exclusive => None,
        }
    }
}

impl<T> Ref<T> {
    /// Reads the interior of the cell this view was granted by.
    pub fn deref<'a>(&self, cell: &'a RefCell<T>) -> (r: &'a T)
        requires
            cell.borrow_state() is Shared,
        ensures
            *r == cell.value(),
    {
        &cell.value
    }

    /// Gives this view back: the last one returns the cell to `Unshared`,
    /// any other lowers the shared count by one.
    pub fn release(self, cell: &mut RefCell<T>)
        requires
            old(cell).wf(),
            old(cell).borrow_state() is Shared,
        ensures
            final(cell).borrow_state() == after_release_shared(old(cell).borrow_state()),
            final(cell).value() == old(cell).value(),
            final(cell).wf(),
    {
        match cell.state.get() {
            RefState::Shared(n) => {
                if n == 1 {
                    cell.state.set(RefState::Unshared);
                } else {
                    cell.state.set(RefState::Shared(n - 1));
                }
            },
            _ => {},
        }
    }
}

impl<T> RefMut<T> {
    /// Reads the interior of the cell this view was granted by.
    pub fn deref<'a>(&self, cell: &'a RefCell<T>) -> (r: &'a T)
        requires
            cell.borrow_state() is Exclusive,
        ensures
            *r == cell.value(),
    {
        &cell.value
    }

    /// Lends the interior of the cell this view was granted by for writing.
    pub fn deref_mut<'a>(&self, cell: &'a mut RefCell<T>) -> (r: &'a mut T)
        requires
            old(cell).borrow_state() is Exclusive,
        ensures
            *r == old(cell).value(),
            final(cell).value() == *final(r),
            final(cell).borrow_state() == old(cell).borrow_state(),
    {
        &mut cell.value
    }

    /// Gives the exclusive view back, returning the cell to `Unshared`.
    pub fn release(self, cell: &mut RefCell<T>)
        requires
            old(cell).borrow_state() is Exclusive,
        ensures
            final(cell).borrow_state() == after_release_exclusive(old(cell).borrow_state()),
            final(cell).value() == old(cell).value(),
            final(cell).wf(),
    {
        cell.state.set(RefState::Unshared);
    }
}

} // verus!
