//! A slot, the scopes that install a value in it, and the reads of that value.

use crate::cell::StorageCell;
use crate::error::AccessError;
use crate::error::ScopeInnerErr;
use crate::guard::ReentrancyGuard;
use vstd::prelude::*;

verus! {

/// What a slot is at one moment.
pub struct KeyView<T> {
    /// The value that a read finds, if any.
    pub value: Option<T>,
    /// `None` for a slot that belongs to one execution context alone. For a
    /// slot shared by the whole process, whether a scope is inside it.
    pub guard: Option<bool>,
}

impl<T> KeyView<T> {
    /// The slot is one shared instance with a busy flag.
    pub open spec fn is_shared(self) -> bool {
        self.guard is Some
    }

    /// A scope is inside the shared slot.
    pub open spec fn busy(self) -> bool {
        self.guard == Some(true)
    }

    /// No scope can be entered now: the slot is shared and busy.
    pub open spec fn blocked(self) -> bool {
        self.busy()
    }

    /// A read finds a value now. On a shared slot that also takes a scope
    /// that is inside it.
    pub open spec fn readable(self) -> bool {
        self.value is Some && (self.is_shared() ==> self.busy())
    }

    /// The slot after a swap-in that carries `slot`: it holds `slot`, and a
    /// shared slot is busy.
    pub open spec fn swapped_in(self, slot: Option<T>) -> KeyView<T> {
        KeyView {
            value: slot,
            guard: match self.guard {
                Some(_) => Some(true),
                None => None,
            },
        }
    }

    /// The slot after a swap-out that brings `prev` back: it holds `prev`,
    /// and a shared slot is free.
    pub open spec fn swapped_out(self, prev: Option<T>) -> KeyView<T> {
        KeyView {
            value: prev,
            guard: match self.guard {
                Some(_) => Some(false),
                None => None,
            },
        }
    }
}

/// One slot: a storage cell, and for a shared slot its busy flag.
///
/// Whoever is inside a scope holds the slot by exclusive borrow, so the code
/// that a scope runs receives the slot as its argument.
pub struct LocalKey<T> {
    cell: StorageCell<T>,
    guard: Option<ReentrancyGuard>,
}

impl<T> View for LocalKey<T> {
    type V = KeyView<T>;

    closed spec fn view(&self) -> KeyView<T> {
        KeyView {
            value: self.cell@,
            guard: match self.guard {
                Some(g) => Some(g@),
                None => None,
            },
        }
    }
}

impl<T> LocalKey<T> {
    /// An empty slot of one execution context. Scopes on it nest freely.
    pub fn new() -> (key: Self)
        ensures
            key@.value is None,
            !key@.is_shared(),
    {
        LocalKey { cell: StorageCell::new(), guard: None }
    }

    /// An empty slot shared by the whole process. At most one scope is inside
    /// it at a time: its busy flag, free at first, rejects a second entry.
    pub fn new_shared() -> (key: Self)
        ensures
            key@.value is None,
            key@.is_shared(),
            !key@.busy(),
    {
        LocalKey { cell: StorageCell::new(), guard: Some(ReentrancyGuard::new()) }
    }

    /// Whether an entry would be rejected now.
    pub fn is_blocked(&self) -> (blocked: bool)
        ensures
            blocked == self@.blocked(),
    {
        match &self.guard {
            Some(guard) => guard.is_held(),
            None => false,
        }
    }

    /// Whether a read would find a value now.
    pub fn is_set(&self) -> (set: bool)
        ensures
            set == self@.readable(),
    {
        let inside = match &self.guard {
            Some(guard) => guard.is_held(),
            None => true,
        };
        inside && self.cell.is_set()
    }

    /// Swap-in. Exchanges the slot's contents with `*slot`, taking the busy
    /// flag of a shared slot first. Where that flag is held already the entry
    /// is rejected and nothing changes.
    pub fn enter(&mut self, slot: &mut Option<T>) -> (res: Result<(), ScopeInnerErr>)
        ensures
            res is Err <==> old(self)@.blocked(),
            res is Err ==> final(self)@ == old(self)@ && *final(slot) == *old(slot),
            res is Ok ==> final(self)@ == old(self)@.swapped_in(*old(slot)) && *final(slot)
                == old(self)@.value,
    {
        match &mut self.guard {
            Some(guard) => {
                if guard.acquire().is_err() {
                    return Err(ScopeInnerErr::BorrowError);
                }
            },
            None => {},
        }
        let displaced = self.cell.swap(slot.take());
        *slot = displaced;
        Ok(())
    }

    /// Swap-out. Exchanges the slot's contents with `*slot` again and frees
    /// the busy flag of a shared slot.
    pub fn exit(&mut self, slot: &mut Option<T>)
        ensures
            final(self)@ == old(self)@.swapped_out(*old(slot)),
            *final(slot) == old(self)@.value,
    {
        let carried = self.cell.swap(slot.take());
        *slot = carried;
        match &mut self.guard {
            Some(guard) => {
                guard.release();
            },
            None => {},
        }
    }

    /// Runs `f` inside a scope that installs `*slot`, and leaves the scope
    /// again. `f` receives the slot, entered. On a blocked slot nothing runs
    /// and nothing changes.
    ///
    /// After the scope the slot holds the value it held before, whatever `f`
    /// did to it, and `*slot` holds what `f` left in the slot.
    pub fn scope_inner<F, R>(&mut self, slot: &mut Option<T>, f: F) -> (res: Result<
        R,
        ScopeInnerErr,
    >) where F: FnOnce(&mut LocalKey<T>) -> R
        requires
            !old(self)@.blocked() ==> forall|k: &mut LocalKey<T>|
                (*k)@ == old(self)@.swapped_in(*old(slot)) ==> call_requires(f, (k,)),
        ensures
            res is Err <==> old(self)@.blocked(),
            res is Err ==> final(self)@ == old(self)@ && *final(slot) == *old(slot),
            res is Ok ==> final(self)@.value == old(self)@.value,
            res matches Ok(r) ==> exists|k: &mut LocalKey<T>|
                {
                    &&& (*k)@ == old(self)@.swapped_in(*old(slot))
                    &&& #[trigger] call_ensures(f, (k,), r)
                    &&& final(self)@ == (*final(k))@.swapped_out(old(self)@.value)
                    &&& *final(slot) == (*final(k))@.value
                },
    {
        match self.enter(slot) {
            Err(err) => {
                return Err(err);
            },
            Ok(()) => {},
        }
        let res = f(self);
        self.exit(slot);
        let out: Result<R, ScopeInnerErr> = Ok(res);
        assert(out->Ok_0 == res);
        out
    }

    /// Installs `value` for the duration of `f` and returns what `f` returns.
    /// Afterwards the slot holds the value it held before.
    ///
    /// Entering a blocked slot is a programming error, so the caller shows
    /// that the slot is not blocked.
    pub fn sync_scope<F, R>(&mut self, value: T, f: F) -> (res: R) where
        F: FnOnce(&mut LocalKey<T>) -> R,

        requires
            !old(self)@.blocked(),
            forall|k: &mut LocalKey<T>|
                (*k)@ == old(self)@.swapped_in(Some(value)) ==> call_requires(f, (k,)),
        ensures
            final(self)@.value == old(self)@.value,
            exists|k: &mut LocalKey<T>|
                {
                    &&& (*k)@ == old(self)@.swapped_in(Some(value))
                    &&& #[trigger] call_ensures(f, (k,), res)
                    &&& final(self)@ == (*final(k))@.swapped_out(old(self)@.value)
                },
    {
        let mut slot = Some(value);
        match self.scope_inner(&mut slot, f) {
            Ok(res) => res,
            Err(_) => vstd::pervasive::unreached(),
        }
    }

    /// Calls `f` on the current value, or fails where a read finds none.
    pub fn try_with<F, R>(&self, f: F) -> (res: Result<R, AccessError>) where F: FnOnce(&T) -> R
        requires
            self@.readable() ==> call_requires(f, (&self@.value->0,)),
        ensures
            res is Ok <==> self@.readable(),
            res matches Ok(r) ==> call_ensures(f, (&self@.value->0,), r),
    {
        match &self.guard {
            Some(guard) => {
                if !guard.is_held() {
                    return Err(AccessError::not_set());
                }
            },
            None => {},
        }
        match self.cell.read(f) {
            Some(res) => Ok(res),
            None => Err(AccessError::not_set()),
        }
    }

    /// Calls `f` on the current value.
    ///
    /// Reading a slot outside every scope is a programming error, so the
    /// caller shows that there is a value.
    pub fn with<F, R>(&self, f: F) -> (res: R) where F: FnOnce(&T) -> R
        requires
            self@.readable(),
            call_requires(f, (&self@.value->0,)),
        ensures
            call_ensures(f, (&self@.value->0,), res),
    {
        match self.try_with(f) {
            Ok(res) => res,
            Err(_) => vstd::pervasive::unreached(),
        }
    }
}

impl<T: Clone> LocalKey<T> {
    /// A copy of the current value.
    pub fn get(&self) -> (res: T)
        requires
            self@.readable(),
        ensures
            cloned(self@.value->0, res),
    {
        let copy = |v: &T| -> (c: T)
            ensures
                cloned(*v, c),
            { v.clone() };
        self.with(copy)
    }
}

} // verus!
