//! Single-owner interior cells: a copy-in/copy-out `Cell` and a `RefCell`
//! whose shared/exclusive borrows are tracked by a run-time state machine.

mod cell;
mod refcell;

pub use cell::{Cell, lemma_get_after_set};
pub use refcell::{Event, Ref, RefCell, RefMut, RefState, lemma_exclusive_alone};
