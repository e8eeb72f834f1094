//! A suspendable computation that runs with a value installed in a slot.

use crate::error::ScopeInnerErr;
use crate::key::LocalKey;
use vstd::prelude::*;

verus! {

/// What one resumption step of a computation reports.
pub enum Poll<R> {
    /// The computation has finished with this result.
    Ready(R),
    /// The computation has suspended and wants to be resumed later.
    Pending,
}

impl<R> Poll<R> {
    /// Whether the step finished the computation.
    pub fn is_ready(&self) -> (ready: bool)
        ensures
            ready == (*self is Ready),
    {
        match self {
            Poll::Ready(_) => true,
            Poll::Pending => false,
        }
    }

    /// Whether the step left the computation suspended.
    pub fn is_pending(&self) -> (pending: bool)
        ensures
            pending == (*self is Pending),
    {
        !self.is_ready()
    }
}

/// What a [`TaskLocalFuture`] is at one moment.
pub struct FutureView<T, F> {
    /// The value that the next step installs; `None` once it was taken.
    pub value: Option<T>,
    /// The computation, until it has finished or was cancelled.
    pub inner: Option<F>,
}

/// A computation of type `F` together with the value that every one of its
/// steps finds in the slot.
///
/// Between two steps the value rests here and the slot is as if the
/// computation did not exist.
pub struct TaskLocalFuture<T, F> {
    slot: Option<T>,
    future: Option<F>,
}

impl<T, F> View for TaskLocalFuture<T, F> {
    type V = FutureView<T, F>;

    closed spec fn view(&self) -> FutureView<T, F> {
        FutureView { value: self.slot, inner: self.future }
    }
}

impl<T> LocalKey<T> {
    /// Pairs `value` with the computation `f`. Nothing is installed yet: each
    /// step of the result installs `value` for as long as the step lasts.
    pub fn scope<F>(&self, value: T, f: F) -> (fut: TaskLocalFuture<T, F>)
        ensures
            fut@ == (FutureView { value: Some(value), inner: Some(f) }),
    {
        TaskLocalFuture { slot: Some(value), future: Some(f) }
    }
}

impl<T, F> TaskLocalFuture<T, F> {
    /// Whether the computation is still there to be resumed.
    pub fn is_pending(&self) -> (pending: bool)
        ensures
            pending == (self@.inner is Some),
    {
        self.future.is_some()
    }

    /// The value that the next step installs, if it is still here.
    pub fn value(&self) -> (value: Option<&T>)
        ensures
            value is Some <==> self@.value is Some,
            value is Some ==> *value->0 == self@.value->0,
    {
        self.slot.as_ref()
    }

    /// Takes the value out. It is given out once: afterwards there is none.
    /// The computation is not touched.
    pub fn take_value(&mut self) -> (value: Option<T>)
        ensures
            value == old(self)@.value,
            final(self)@.value is None,
            final(self)@.inner == old(self)@.inner,
    {
        self.slot.take()
    }

    /// The first half of a resumption step: swap-in. Enters the scope with
    /// the value kept here and hands out the computation, so that the caller
    /// can advance it while the slot holds the value. Until
    /// [`TaskLocalFuture::end_step`] this object keeps what the slot held
    /// before.
    ///
    /// A blocked slot rejects the step and nothing changes. Where the
    /// computation is gone already the scope is entered all the same and
    /// `Ok(None)` is handed out.
    pub fn begin_step(&mut self, key: &mut LocalKey<T>) -> (res: Result<Option<F>, ScopeInnerErr>)
        ensures
            res is Err <==> old(key)@.blocked(),
            res is Err ==> final(self)@ == old(self)@ && final(key)@ == old(key)@,
            res matches Ok(inner) ==> {
                &&& inner == old(self)@.inner
                &&& final(key)@ == old(key)@.swapped_in(old(self)@.value)
                &&& final(self)@ == (FutureView::<T, F> { value: old(key)@.value, inner: None })
            },
    {
        match key.enter(&mut self.slot) {
            Err(err) => Err(err),
            Ok(()) => Ok(self.future.take()),
        }
    }

    /// The second half of a resumption step: swap-out. Keeps `rest`, which is
    /// the computation if it suspended and `None` if it finished, and leaves
    /// the scope: the slot gets back what it held before the step, and what
    /// the step left in the slot is kept here for the next one.
    pub fn end_step(&mut self, key: &mut LocalKey<T>, rest: Option<F>)
        ensures
            final(key)@ == old(key)@.swapped_out(old(self)@.value),
            final(self)@ == (FutureView { value: old(key)@.value, inner: rest }),
    {
        self.future = rest;
        key.exit(&mut self.slot);
    }

    /// One resumption step, where it can be made.
    ///
    /// The step enters the scope with the value kept here, lets `resume`
    /// advance the computation once, and leaves the scope again. `resume`
    /// receives the computation and the slot, entered. A computation that
    /// reports completion is discarded; one that suspends is kept. Either way
    /// the slot holds afterwards the value it held before the step, and what
    /// the step left in the slot is kept here for the next one.
    ///
    /// Nothing runs and nothing changes where the slot is blocked (`Err`).
    /// Where the computation is gone already the result is `Ok(None)`.
    pub fn try_poll<P, R>(&mut self, key: &mut LocalKey<T>, resume: P) -> (res: Result<
        Option<Poll<R>>,
        ScopeInnerErr,
    >) where P: FnOnce(&mut F, &mut LocalKey<T>) -> Poll<R>
        requires
            !old(key)@.blocked() && old(self)@.inner is Some ==> forall|
                fut: &mut F,
                k: &mut LocalKey<T>,
            |
                *fut == old(self)@.inner->0 && (*k)@ == old(key)@.swapped_in(old(self)@.value)
                    ==> call_requires(resume, (fut, k)),
        ensures
            res is Err <==> old(key)@.blocked(),
            res is Err ==> final(self)@ == old(self)@ && final(key)@ == old(key)@,
            res is Ok ==> (res->Ok_0 is Some <==> old(self)@.inner is Some),
            res is Ok ==> final(key)@.value == old(key)@.value,
            res matches Ok(None) ==> final(self)@ == old(self)@ && final(key)@ == old(key)@,
            res matches Ok(Some(p)) ==> exists|fut: &mut F, k: &mut LocalKey<T>|
                {
                    &&& *fut == old(self)@.inner->0
                    &&& (*k)@ == old(key)@.swapped_in(old(self)@.value)
                    &&& #[trigger] call_ensures(resume, (fut, k), p)
                    &&& final(key)@ == (*final(k))@.swapped_out(old(key)@.value)
                    &&& final(self)@.value == (*final(k))@.value
                    &&& final(self)@.inner == if p is Ready {
                        None
                    } else {
                        Some(*final(fut))
                    }
                },
    {
        let inner = match self.begin_step(key) {
            Err(err) => {
                return Err(err);
            },
            Ok(inner) => inner,
        };
        let out = match inner {
            Some(mut fut) => {
                let step = resume(&mut fut, key);
                if step.is_pending() {
                    self.end_step(key, Some(fut));
                } else {
                    self.end_step(key, None);
                }
                Some(step)
            },
            None => {
                self.end_step(key, None);
                None
            },
        };
        proof {
            if out is None {
                assert(key@.guard == old(key)@.guard);
                assert(self@.inner == old(self)@.inner);
            }
        }
        let res: Result<Option<Poll<R>>, ScopeInnerErr> = Ok(out);
        assert(res->Ok_0 == out);
        res
    }

    /// One resumption step of a computation that is still there, on a slot
    /// that is not blocked. See [`TaskLocalFuture::try_poll`].
    ///
    /// To resume a computation that has finished, or to enter a blocked slot,
    /// is a programming error, so the caller shows that neither is the case.
    pub fn poll<P, R>(&mut self, key: &mut LocalKey<T>, resume: P) -> (step: Poll<R>) where
        P: FnOnce(&mut F, &mut LocalKey<T>) -> Poll<R>,

        requires
            !old(key)@.blocked(),
            old(self)@.inner is Some,
            forall|fut: &mut F, k: &mut LocalKey<T>|
                *fut == old(self)@.inner->0 && (*k)@ == old(key)@.swapped_in(old(self)@.value)
                    ==> call_requires(resume, (fut, k)),
        ensures
            final(key)@.value == old(key)@.value,
            exists|fut: &mut F, k: &mut LocalKey<T>|
                {
                    &&& *fut == old(self)@.inner->0
                    &&& (*k)@ == old(key)@.swapped_in(old(self)@.value)
                    &&& #[trigger] call_ensures(resume, (fut, k), step)
                    &&& final(key)@ == (*final(k))@.swapped_out(old(key)@.value)
                    &&& final(self)@.value == (*final(k))@.value
                    &&& final(self)@.inner == if step is Ready {
                        None
                    } else {
                        Some(*final(fut))
                    }
                },
    {
        match self.try_poll(key, resume) {
            Ok(Some(step)) => step,
            Ok(None) => vstd::pervasive::unreached(),
            Err(_) => vstd::pervasive::unreached(),
        }
    }

    /// Gives up a computation that has not finished.
    ///
    /// The computation is handed to `cleanup` inside an entered scope, so
    /// that what `cleanup` reads from the slot is the value that every step
    /// found there. Afterwards the slot holds the value it held before, and
    /// what `cleanup` left in the slot is kept here.
    ///
    /// Nothing runs and nothing changes where the computation is gone
    /// already (`Ok`), or where the slot is blocked (`Err`: the computation
    /// stays).
    pub fn cancel<C>(&mut self, key: &mut LocalKey<T>, cleanup: C) -> (res: Result<
        (),
        ScopeInnerErr,
    >) where C: FnOnce(F, &mut LocalKey<T>) -> ()
        requires
            !old(key)@.blocked() && old(self)@.inner is Some ==> forall|k: &mut LocalKey<T>|
                (*k)@ == old(key)@.swapped_in(old(self)@.value) ==> call_requires(
                    cleanup,
                    (old(self)@.inner->0, k),
                ),
        ensures
            res is Err <==> old(self)@.inner is Some && old(key)@.blocked(),
            res is Err || old(self)@.inner is None ==> final(self)@ == old(self)@ && final(key)@
                == old(key)@,
            final(key)@.value == old(key)@.value,
            res is Ok ==> final(self)@.inner is None,
            res is Ok && old(self)@.inner is Some ==> exists|k: &mut LocalKey<T>|
                {
                    &&& (*k)@ == old(key)@.swapped_in(old(self)@.value)
                    &&& #[trigger] call_ensures(cleanup, (old(self)@.inner->0, k), ())
                    &&& final(key)@ == (*final(k))@.swapped_out(old(key)@.value)
                    &&& final(self)@.value == (*final(k))@.value
                },
    {
        if !self.is_pending() {
            return Ok(());
        }
        let inner = match self.begin_step(key) {
            Err(err) => {
                return Err(err);
            },
            Ok(inner) => inner,
        };
        match inner {
            Some(fut) => {
                cleanup(fut, key);
            },
            None => {},
        }
        self.end_step(key, None);
        Ok(())
    }
}

} // verus!
