//! Transition result types: the designated starting state of a loop
//! ([`First`]), the outcome of a single transition ([`Next`]), and the unit of
//! work held in the runtime's queue ([`Task`]).

use vstd::prelude::*;

verus! {

/// A pending unit of work: an event awaiting the transition function, or an
/// effect awaiting the effect-handling function. The runtime's queue holds
/// tasks; no runtime operation takes or returns one.
pub enum Task<E, F> {
    Event(E),
    Effect(F),
}

/// The designated starting state of a loop: a model and zero or more effects
/// to perform before ordinary queue processing begins.
pub struct First<M, F> {
    pub(crate) model: M,
    pub(crate) effects: Vec<F>,
}

impl<M, F> First<M, F> {
    /// The starting model.
    pub closed spec fn model_spec(&self) -> M {
        self.model
    }

    /// The starting effects, in the order they are to be enqueued.
    pub closed spec fn effects_spec(&self) -> Seq<F> {
        self.effects@
    }

    pub fn first(model: M, effects: Vec<F>) -> (r: First<M, F>)
        ensures
            r.model_spec() == model,
            r.effects_spec() == effects@,
    {
        First { model, effects }
    }

    /// The starting model and effects back as plain values.
    pub fn into_parts(self) -> (r: (M, Vec<F>))
        ensures
            r.0 == self.model_spec(),
            r.1@ == self.effects_spec(),
    {
        (self.model, self.effects)
    }
}

/// The result of a single transition: an optional replacement model and the
/// effects the transition requests. An absent model is a distinct, meaningful
/// value: the state is unchanged and the observer is not notified.
pub struct Next<M, F> {
    pub(crate) model: Option<M>,
    pub(crate) effects: Vec<F>,
}

impl<M, F> Next<M, F> {
    /// The replacement model, if the transition accepted one.
    pub closed spec fn model_spec(&self) -> Option<M> {
        self.model
    }

    /// The effects the transition requests, in order.
    pub closed spec fn effects_spec(&self) -> Seq<F> {
        self.effects@
    }

    /// A transition to `model` that also requests `effects`.
    pub fn next(model: M, effects: Vec<F>) -> (r: Self)
        ensures
            r.model_spec() == Some(model),
            r.effects_spec() == effects@,
    {
        let model = Some(model);
        Next { model, effects }
    }

    /// A transition that leaves the model unchanged and requests one effect.
    pub fn dispatch(effect: F) -> (r: Self)
        ensures
            r.model_spec() is None,
            r.effects_spec() =~= seq![effect],
    {
        let model = None;
        let effects = vec![effect];
        Next { model, effects }
    }

    /// A transition that leaves the model unchanged and requests `effects`.
    pub fn dispatch_vec(effects: Vec<F>) -> (r: Self)
        ensures
            r.model_spec() is None,
            r.effects_spec() == effects@,
    {
        let model = None;
        Next { model, effects }
    }

    /// A transition that leaves the model unchanged and requests nothing: the
    /// observer is not notified and the queue is not extended.
    pub fn no_change() -> (r: Self)
        ensures
            r.model_spec() is None,
            r.effects_spec() == Seq::<F>::empty(),
    {
        let model = None;
        let effects = vec![];
        Next { model, effects }
    }

    /// The optional replacement model and the effects back as plain values.
    pub fn into_parts(self) -> (r: (Option<M>, Vec<F>))
        ensures
            r.0 == self.model_spec(),
            r.1@ == self.effects_spec(),
    {
        (self.model, self.effects)
    }
}

} // verus!
