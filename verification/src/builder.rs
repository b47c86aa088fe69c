//! The staged configuration builder: the two mandatory callbacks come first,
//! at [`Builder::new`], so a runtime lacking them cannot be expressed; the
//! optional initializer, event source and observer may be added in any order
//! or omitted; [`Builder::start`] seeds the runtime and consumes the builder.

use vstd::prelude::*;

use std::marker::PhantomData;

use crate::hooks::{InitHook, ObserveHook, Supplied, Unset};
use crate::serial::SerialLoop;
use crate::transition::{First, Next, Task};

verus! {

/// Collects callbacks for a [`SerialLoop`]. The optional slots start at
/// [`Unset`]; each setter narrows its slot's type to [`Supplied`] around the
/// given callback, all other fields carried over unchanged.
pub struct Builder<M, E, F, I, U, H, S, O> {
    model: PhantomData<M>,
    event: PhantomData<E>,
    effect: PhantomData<F>,
    init_fn: Option<I>,
    update_fn: U,
    handle_fn: H,
    source_fn: Option<S>,
    observe_fn: Option<O>,
}

impl<M, E, F, I, U, H, S, O> Builder<M, E, F, I, U, H, S, O> {
    /// The configured initializer slot, if set.
    pub closed spec fn init_spec(&self) -> Option<I> {
        self.init_fn
    }

    /// The transition function.
    pub closed spec fn update_spec(&self) -> U {
        self.update_fn
    }

    /// The effect-handling function.
    pub closed spec fn handle_spec(&self) -> H {
        self.handle_fn
    }

    /// The configured event source, if set.
    pub closed spec fn source_spec(&self) -> Option<S> {
        self.source_fn
    }

    /// The configured observer slot, if set.
    pub closed spec fn observe_spec(&self) -> Option<O> {
        self.observe_fn
    }

    /// The same builder with the initializer slot set to `func`, all other
    /// fields carried over unchanged.
    pub fn init<I2: Fn(&M) -> First<M, F>>(self, func: I2) -> (r: Builder<
        M,
        E,
        F,
        Supplied<I2>,
        U,
        H,
        S,
        O,
    >)
        ensures
            r.init_spec() == Some(Supplied(func)),
            r.update_spec() == self.update_spec(),
            r.handle_spec() == self.handle_spec(),
            r.source_spec() == self.source_spec(),
            r.observe_spec() == self.observe_spec(),
    {
        Builder {
            model: self.model,
            event: self.event,
            effect: self.effect,
            init_fn: Some(Supplied(func)),
            update_fn: self.update_fn,
            handle_fn: self.handle_fn,
            source_fn: self.source_fn,
            observe_fn: self.observe_fn,
        }
    }

    /// The same builder with the event source set to `func`, all other fields
    /// carried over unchanged. The source is reserved: the drain algorithm
    /// never invokes it.
    pub fn source<S2: Fn(&M) -> Vec<E>>(self, func: S2) -> (r: Builder<M, E, F, I, U, H, S2, O>)
        ensures
            r.source_spec() == Some(func),
            r.init_spec() == self.init_spec(),
            r.update_spec() == self.update_spec(),
            r.handle_spec() == self.handle_spec(),
            r.observe_spec() == self.observe_spec(),
    {
        Builder {
            model: self.model,
            event: self.event,
            effect: self.effect,
            init_fn: self.init_fn,
            update_fn: self.update_fn,
            handle_fn: self.handle_fn,
            source_fn: Some(func),
            observe_fn: self.observe_fn,
        }
    }

    /// The same builder with the observer slot set to `func`, all other
    /// fields carried over unchanged.
    pub fn observe<O2: Fn(&M)>(self, func: O2) -> (r: Builder<M, E, F, I, U, H, S, Supplied<O2>>)
        ensures
            r.observe_spec() == Some(Supplied(func)),
            r.init_spec() == self.init_spec(),
            r.update_spec() == self.update_spec(),
            r.handle_spec() == self.handle_spec(),
            r.source_spec() == self.source_spec(),
    {
        Builder {
            model: self.model,
            event: self.event,
            effect: self.effect,
            init_fn: self.init_fn,
            update_fn: self.update_fn,
            handle_fn: self.handle_fn,
            source_fn: self.source_fn,
            observe_fn: Some(Supplied(func)),
        }
    }
}

impl<M, E, F, U, H> Builder<M, E, F, Unset, U, H, Unset, Unset> where
    U: Fn(&M, E) -> Next<M, F>,
    H: Fn(&M, F) -> Vec<E>,
 {
    /// A builder holding the two mandatory callbacks, the optional slots all
    /// unset.
    pub fn new(update_fn: U, handle_fn: H) -> (r: Self)
        ensures
            r.init_spec() is None,
            r.update_spec() == update_fn,
            r.handle_spec() == handle_fn,
            r.source_spec() is None,
            r.observe_spec() is None,
    {
        Builder {
            model: PhantomData,
            event: PhantomData,
            effect: PhantomData,
            init_fn: None,
            update_fn,
            handle_fn,
            source_fn: None,
            observe_fn: None,
        }
    }
}

impl<M, E, F, I, U, H, S, O> Builder<M, E, F, I, U, H, S, O> where
    I: InitHook<M, F>,
    U: Fn(&M, E) -> Next<M, F>,
    H: Fn(&M, F) -> Vec<E>,
    O: ObserveHook<M>,
 {
    /// The terminal operation: a runtime seeded with `model`, its queue
    /// empty, carrying the collected callbacks. The builder is consumed.
    pub fn start(self, model: M) -> (r: SerialLoop<M, E, F, I, U, H, S, O>)
        ensures
            r.model_spec() == model,
            r.queue_spec() == Seq::<Task<E, F>>::empty(),
            r.init_spec() == self.init_spec(),
            r.update_spec() == self.update_spec(),
            r.handle_spec() == self.handle_spec(),
            r.source_spec() == self.source_spec(),
            r.observe_spec() == self.observe_spec(),
    {
        SerialLoop::new(
            model,
            self.init_fn,
            self.update_fn,
            self.handle_fn,
            self.source_fn,
            self.observe_fn,
        )
    }
}

} // verus!
