//! The storage cell: zero or one value of a slot's type.

use vstd::prelude::*;

verus! {

/// Holds the current value of one slot, or nothing. Every change of a slot's
/// contents is one [`StorageCell::swap`].
pub struct StorageCell<T> {
    value: Option<T>,
}

impl<T> View for StorageCell<T> {
    type V = Option<T>;

    closed spec fn view(&self) -> Option<T> {
        self.value
    }
}

impl<T> StorageCell<T> {
    /// An empty cell.
    pub fn new() -> (cell: Self)
        ensures
            cell@ is None,
    {
        StorageCell { value: None }
    }

    /// Exchanges the contents with `new` and hands back what the cell held.
    pub fn swap(&mut self, new: Option<T>) -> (prev: Option<T>)
        ensures
            prev == old(self)@,
            final(self)@ == new,
    {
        let mut incoming = new;
        core::mem::swap(&mut self.value, &mut incoming);
        incoming
    }

    /// Whether the cell holds a value.
    pub fn is_set(&self) -> (set: bool)
        ensures
            set == (self@ is Some),
    {
        self.value.is_some()
    }

    /// Calls `f` on the value if there is one. The cell is left as it was.
    pub fn read<F, R>(&self, f: F) -> (res: Option<R>) where F: FnOnce(&T) -> R
        requires
            self@ is Some ==> call_requires(f, (&self@->0,)),
        ensures
            res is Some <==> self@ is Some,
            res matches Some(r) ==> call_ensures(f, (&self@->0,), r),
    {
        match self.value.as_ref() {
            Some(value) => Some(f(value)),
            None => None,
        }
    }
}

} // verus!
