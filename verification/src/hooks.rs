//! Slot types for the optional lifecycle callbacks. A slot's type says
//! whether a callback was supplied: an unset slot is [`Unset`], a set one is
//! [`Supplied`] around the callback. The builder narrows a slot's type when
//! the callback is supplied, so a runtime built without an initializer or an
//! observer carries that in its type.

use vstd::prelude::*;

use crate::transition::First;

verus! {

/// An optional-callback slot with nothing in it.
pub struct Unset;

/// An optional-callback slot holding the supplied callback.
pub struct Supplied<T>(pub T);

/// What an initializer slot can do: produce the designated starting state.
pub trait InitHook<M, F>: Sized {
    /// The held callback accepts every model. An [`Unset`] slot never does:
    /// it cannot be invoked at all.
    spec fn callable(&self) -> bool;

    /// The possible results of the held callback on the model `m`.
    spec fn post(&self, m: M, fr: First<M, F>) -> bool;

    /// Invokes the held callback on the current model.
    fn call_hook(&self, m: &M) -> (r: First<M, F>)
        requires
            self.callable(),
        ensures
            self.post(*m, r),
    ;
}

impl<M, F> InitHook<M, F> for Unset {
    open spec fn callable(&self) -> bool {
        false
    }

    open spec fn post(&self, m: M, fr: First<M, F>) -> bool {
        false
    }

    fn call_hook(&self, m: &M) -> (r: First<M, F>) {
        unreached()
    }
}

impl<M, F, I: Fn(&M) -> First<M, F>> InitHook<M, F> for Supplied<I> {
    open spec fn callable(&self) -> bool {
        forall|m: M| #[trigger] call_requires(self.0, (&m,))
    }

    open spec fn post(&self, m: M, fr: First<M, F>) -> bool {
        call_ensures(self.0, (&m,), fr)
    }

    fn call_hook(&self, m: &M) -> (r: First<M, F>) {
        (self.0)(m)
    }
}

/// What an observer slot can do: take note of a freshly accepted model.
pub trait ObserveHook<M>: Sized {
    /// The held callback accepts every model. An [`Unset`] slot never does:
    /// it cannot be invoked at all.
    spec fn callable(&self) -> bool;

    /// What holds after the held callback was notified of the model `m`: its
    /// own postcondition on that call.
    spec fn notified(&self, m: M) -> bool;

    /// Notifies the held callback of the model `m`.
    fn call_hook(&self, m: &M)
        requires
            self.callable(),
        ensures
            self.notified(*m),
    ;
}

impl<M> ObserveHook<M> for Unset {
    open spec fn callable(&self) -> bool {
        false
    }

    open spec fn notified(&self, m: M) -> bool {
        false
    }

    fn call_hook(&self, m: &M) {
        unreached()
    }
}

impl<M, O: Fn(&M)> ObserveHook<M> for Supplied<O> {
    open spec fn callable(&self) -> bool {
        forall|m: M| #[trigger] call_requires(self.0, (&m,))
    }

    open spec fn notified(&self, m: M) -> bool {
        call_ensures(self.0, (&m,), ())
    }

    fn call_hook(&self, m: &M) {
        (self.0)(m);
    }
}

} // verus!
