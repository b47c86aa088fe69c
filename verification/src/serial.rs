//! The task queue runtime: owns the current model and a FIFO queue of pending
//! tasks, and drains the queue to a fixpoint, handing events to the transition
//! function and effects to the effect-handling function, strictly in queue
//! order.

use vstd::prelude::*;

use std::collections::VecDeque;

use crate::steps::{
    commit, drain_bounded, effect_tasks, event_tasks, handle_total, init_step, init_total,
    lemma_reaches_extend, finitely_generating, lemma_reaches_refl, observe_total, observed, process_task,
    reaches, task_step, update_total, Cfg,
};
use crate::hooks::{InitHook, ObserveHook};
use crate::transition::{Next, Task};

verus! {

/// A single-threaded loop runtime. It holds the model, the task queue and the
/// configured callbacks; [`SerialLoop::run`] drains the queue to empty.
pub struct SerialLoop<M, E, F, I, U, H, S, O> {
    model: M,
    taskq: VecDeque<Task<E, F>>,
    init_fn: Option<I>,
    update_fn: U,
    handle_fn: H,
    source_fn: Option<S>,
    observe_fn: Option<O>,
}

impl<M, E, F, I, U, H, S, O> SerialLoop<M, E, F, I, U, H, S, O> {
    /// The current model.
    pub closed spec fn model_spec(&self) -> M {
        self.model
    }

    /// The pending tasks, front first.
    pub closed spec fn queue_spec(&self) -> Seq<Task<E, F>> {
        self.taskq@
    }

    /// The initializer still awaiting its one run, if any.
    pub closed spec fn init_spec(&self) -> Option<I> {
        self.init_fn
    }

    /// The transition function.
    pub closed spec fn update_spec(&self) -> U {
        self.update_fn
    }

    /// The effect-handling function.
    pub closed spec fn handle_spec(&self) -> H {
        self.handle_fn
    }

    /// The configured event source, if any. It is reserved: the drain
    /// algorithm never invokes it.
    pub closed spec fn source_spec(&self) -> Option<S> {
        self.source_fn
    }

    /// The configured observer, if any.
    pub closed spec fn observe_spec(&self) -> Option<O> {
        self.observe_fn
    }

    /// The runtime's configuration: its model and its queue.
    pub open spec fn cfg(&self) -> Cfg<M, E, F> {
        Cfg { model: self.model_spec(), queue: self.queue_spec() }
    }
}

/// Moves a vector of effects into the tasks that enqueue them, in order.
fn tasks_of_effects<E, F>(effects: Vec<F>) -> (out: Vec<Task<E, F>>)
    ensures
        out@ == effect_tasks::<E, F>(effects@),
{
    let ghost orig: Seq<F> = effects@;
    let mut effects = effects;
    let mut out: Vec<Task<E, F>> = Vec::new();
    while effects.len() != 0
        invariant
            out@.len() + effects@.len() == orig.len(),
            out@ == effect_tasks::<E, F>(orig.take(out@.len() as int)),
            effects@ == orig.skip(out@.len() as int),
        decreases effects@.len(),
    {
        let f = effects.remove(0);
        out.push(Task::Effect(f));
        proof {
            assert(effects@ =~= orig.skip(out@.len() as int));
            assert(out@ =~= effect_tasks::<E, F>(orig.take(out@.len() as int)));
        }
    }
    proof {
        assert(orig.take(out@.len() as int) =~= orig);
    }
    out
}

/// Moves a vector of events into the tasks that enqueue them, in order.
fn tasks_of_events<E, F>(events: Vec<E>) -> (out: Vec<Task<E, F>>)
    ensures
        out@ == event_tasks::<E, F>(events@),
{
    let ghost orig: Seq<E> = events@;
    let mut events = events;
    let mut out: Vec<Task<E, F>> = Vec::new();
    while events.len() != 0
        invariant
            out@.len() + events@.len() == orig.len(),
            out@ == event_tasks::<E, F>(orig.take(out@.len() as int)),
            events@ == orig.skip(out@.len() as int),
        decreases events@.len(),
    {
        let e = events.remove(0);
        out.push(Task::Event(e));
        proof {
            assert(events@ =~= orig.skip(out@.len() as int));
            assert(out@ =~= event_tasks::<E, F>(orig.take(out@.len() as int)));
        }
    }
    proof {
        assert(orig.take(out@.len() as int) =~= orig);
    }
    out
}

impl<M, E, F, I, U, H, S, O> SerialLoop<M, E, F, I, U, H, S, O> where
    I: InitHook<M, F>,
    U: Fn(&M, E) -> Next<M, F>,
    H: Fn(&M, F) -> Vec<E>,
    O: ObserveHook<M>,
 {
    /// Every configured callback accepts every input, as the loop contract
    /// demands: the transition and effect-handling functions are total, and so
    /// are the initializer and the observer where configured.
    pub open spec fn callbacks_total(&self) -> bool {
        &&& update_total(self.update_spec())
        &&& handle_total(self.handle_spec())
        &&& init_total(self.init_spec())
        &&& observe_total(self.observe_spec())
    }

    /// A runtime seeded with `model` and the given callbacks, its queue empty.
    pub fn new(
        model: M,
        init_fn: Option<I>,
        update_fn: U,
        handle_fn: H,
        source_fn: Option<S>,
        observe_fn: Option<O>,
    ) -> (r: Self)
        ensures
            r.model_spec() == model,
            r.queue_spec() == Seq::<Task<E, F>>::empty(),
            r.init_spec() == init_fn,
            r.update_spec() == update_fn,
            r.handle_spec() == handle_fn,
            r.source_spec() == source_fn,
            r.observe_spec() == observe_fn,
    {
        SerialLoop {
            model,
            taskq: VecDeque::new(),
            init_fn,
            update_fn,
            handle_fn,
            source_fn,
            observe_fn,
        }
    }

    /// The current model, read-only.
    pub fn current(&self) -> (r: &M)
        ensures
            r == self.model_spec(),
    {
        &self.model
    }

    /// Appends the event at the back of the queue and returns the runtime,
    /// driving no computation: only [`SerialLoop::run`] drains the queue.
    pub fn dispatch(self, event: E) -> (r: Self)
        ensures
            r.model_spec() == self.model_spec(),
            r.queue_spec() == self.queue_spec().push(Task::Event(event)),
            r.init_spec() == self.init_spec(),
            r.update_spec() == self.update_spec(),
            r.handle_spec() == self.handle_spec(),
            r.source_spec() == self.source_spec(),
            r.observe_spec() == self.observe_spec(),
    {
        let mut this = self;
        this.taskq.push_back(Task::Event(event));
        this
    }

    /// Drains the queue to a fixpoint and returns the runtime. First the
    /// one-time initialization is performed, then the front task is popped and
    /// processed, the tasks it produces joining the back of the queue, until
    /// the queue is empty: every task produced along the way, however
    /// transitively, is processed before `run` returns. Where the callbacks
    /// keep producing new tasks forever, `run` does not return: no step limit
    /// is imposed. The final configuration is reached from the initialized one
    /// by a chain of drain steps.
    pub fn run(self) -> (r: Self)
        requires
            self.callbacks_total(),
            forall|c: Cfg<M, E, F>|
                #[trigger] init_step(self.init_spec(), self.observe_spec(), self.cfg(), c)
                    ==> finitely_generating(
                    self.update_spec(),
                    self.handle_spec(),
                    self.observe_spec(),
                    c,
                ),
        ensures
            r.update_spec() == self.update_spec(),
            r.handle_spec() == self.handle_spec(),
            r.source_spec() == self.source_spec(),
            r.observe_spec() == self.observe_spec(),
            r.init_spec() is None,
            r.callbacks_total(),
            r.queue_spec() == Seq::<Task<E, F>>::empty(),
            exists|c: Cfg<M, E, F>|
                #[trigger] init_step(self.init_spec(), self.observe_spec(), self.cfg(), c)
                    && reaches(self.update_spec(), self.handle_spec(), self.observe_spec(), c, r.cfg()),
    {
        let ghost u = self.update_spec();
        let ghost h = self.handle_spec();
        let ghost o = self.observe_spec();
        let ghost pre = self;
        let mut this = self;
        this.init();
        let ghost c0 = this.cfg();
        proof {
            lemma_reaches_refl(u, h, o, c0);
            assert(finitely_generating(u, h, o, c0));
        }
        let ghost rank = choose|rank: spec_fn(Cfg<M, E, F>) -> nat|
            drain_bounded(u, h, o, c0, rank);
        while this.taskq.len() != 0
            invariant
                update_total(u),
                handle_total(h),
                observe_total(o),
                this.update_spec() == u,
                this.handle_spec() == h,
                this.observe_spec() == o,
                this.source_spec() == pre.source_spec(),
                this.init_spec() is None,
                init_step(pre.init_spec(), o, pre.cfg(), c0),
                reaches(u, h, o, c0, this.cfg()),
                drain_bounded(u, h, o, c0, rank),
            decreases rank(this.cfg()),
        {
            let ghost c_pre = this.cfg();
            let task = this.taskq.pop_front().unwrap();
            let out = this.handle(task);
            this.enqueue_all(out);
            proof {
                let c_now = this.cfg();
                assert(c_now.queue =~= c_pre.queue.drop_first() + out@);
                assert(process_task(u, h, o, c_pre.model, c_pre.queue[0], c_now.model, out@)
                    && c_now.queue == c_pre.queue.drop_first() + out@);
                assert(task_step(u, h, o, c_pre, c_now));
                assert(rank(c_now) < rank(c_pre));
                lemma_reaches_extend(u, h, o, c0, c_pre, c_now);
            }
        }
        proof {
            assert(this.queue_spec() =~= Seq::<Task<E, F>>::empty());
            assert(init_step(pre.init_spec(), pre.observe_spec(), pre.cfg(), c0) && reaches(
                u,
                h,
                o,
                c0,
                this.cfg(),
            ));
        }
        this
    }

    /// Performs the one-time initialization: where an initializer is still
    /// pending, it is consumed, the model is replaced by the starting model it
    /// returns, the observer is notified of the replacement, and the starting
    /// effects join the back of the queue, in order.
    fn init(&mut self)
        requires
            init_total(old(self).init_spec()),
            observe_total(old(self).observe_spec()),
        ensures
            final(self).update_spec() == old(self).update_spec(),
            final(self).handle_spec() == old(self).handle_spec(),
            final(self).source_spec() == old(self).source_spec(),
            final(self).observe_spec() == old(self).observe_spec(),
            final(self).init_spec() is None,
            init_step(
                old(self).init_spec(),
                old(self).observe_spec(),
                old(self).cfg(),
                final(self).cfg(),
            ),
    {
        match self.init_fn.take() {
            Some(ic) => {
                let first = ic.call_hook(&self.model);
                let ghost fr = first;
                let (model, effects) = first.into_parts();
                self.model = model;
                if let Some(ob) = &self.observe_fn {
                    ob.call_hook(&self.model);
                }
                let tasks = tasks_of_effects(effects);
                self.enqueue_all(tasks);
                proof {
                    let c1 = old(self).cfg();
                    let c2 = self.cfg();
                    assert(ic.post(c1.model, fr) && c2.model == fr.model_spec() && observed(
                        old(self).observe_spec(),
                        fr.model_spec(),
                    ) && c2.queue == c1.queue + effect_tasks::<E, F>(fr.effects_spec()));
                    assert(init_step(old(self).init_spec(), old(self).observe_spec(), c1, c2));
                }
            },
            None => {
                proof {
                    assert(self.cfg() =~= old(self).cfg());
                }
            },
        }
    }

    /// Hands the event to the transition function and commits the result:
    /// where it carries a replacement model, the model is replaced and the
    /// observer is notified of the new model; otherwise the model stands and
    /// the observer is left alone. Returns the effects the transition
    /// requested, in order; the queue is not touched.
    fn update(&mut self, event: E) -> (effects: Vec<F>)
        requires
            update_total(old(self).update_spec()),
            observe_total(old(self).observe_spec()),
        ensures
            final(self).queue_spec() == old(self).queue_spec(),
            final(self).init_spec() == old(self).init_spec(),
            final(self).update_spec() == old(self).update_spec(),
            final(self).handle_spec() == old(self).handle_spec(),
            final(self).source_spec() == old(self).source_spec(),
            final(self).observe_spec() == old(self).observe_spec(),
            exists|n: Next<M, F>|
                #[trigger] call_ensures(
                    old(self).update_spec(),
                    (&old(self).model_spec(), event),
                    n,
                ) && effects@ == n.effects_spec() && commit(
                    old(self).observe_spec(),
                    old(self).model_spec(),
                    n,
                    final(self).model_spec(),
                    effect_tasks::<E, F>(effects@),
                ),
    {
        let next = (self.update_fn)(&self.model, event);
        let ghost n = next;
        let (new_model, effects) = next.into_parts();
        match new_model {
            Some(model) => {
                self.model = model;
                if let Some(ob) = &self.observe_fn {
                    ob.call_hook(&self.model);
                }
            },
            None => {},
        }
        effects
    }

    /// Processes one task against the current model: an event goes through
    /// the transition function and is committed, an effect goes to the
    /// effect-handling function. Returns the tasks the callback produced, in
    /// order; the queue is not touched.
    fn handle(&mut self, task: Task<E, F>) -> (out: Vec<Task<E, F>>)
        requires
            update_total(old(self).update_spec()),
            handle_total(old(self).handle_spec()),
            observe_total(old(self).observe_spec()),
        ensures
            final(self).queue_spec() == old(self).queue_spec(),
            final(self).init_spec() == old(self).init_spec(),
            final(self).update_spec() == old(self).update_spec(),
            final(self).handle_spec() == old(self).handle_spec(),
            final(self).source_spec() == old(self).source_spec(),
            final(self).observe_spec() == old(self).observe_spec(),
            process_task(
                old(self).update_spec(),
                old(self).handle_spec(),
                old(self).observe_spec(),
                old(self).model_spec(),
                task,
                final(self).model_spec(),
                out@,
            ),
    {
        match task {
            Task::Event(event) => {
                let effects = self.update(event);
                let out = tasks_of_effects(effects);
                proof {
                    let n = choose|n: Next<M, F>|
                        #[trigger] call_ensures(
                            old(self).update_spec(),
                            (&old(self).model_spec(), event),
                            n,
                        ) && effects@ == n.effects_spec() && commit(
                            old(self).observe_spec(),
                            old(self).model_spec(),
                            n,
                            self.model_spec(),
                            effect_tasks::<E, F>(effects@),
                        );
                    assert(call_ensures(
                        old(self).update_spec(),
                        (&old(self).model_spec(), event),
                        n,
                    ) && commit(
                        old(self).observe_spec(),
                        old(self).model_spec(),
                        n,
                        self.model_spec(),
                        out@,
                    ));
                }
                out
            },
            Task::Effect(effect) => {
                let events = (self.handle_fn)(&self.model, effect);
                let ghost evs = events;
                let out = tasks_of_events(events);
                proof {
                    assert(call_ensures(
                        old(self).handle_spec(),
                        (&old(self).model_spec(), effect),
                        evs,
                    ) && self.model_spec() == old(self).model_spec() && out@ == event_tasks::<
                        E,
                        F,
                    >(evs@));
                }
                out
            },
        }
    }

    /// Appends the tasks at the back of the queue, in order, touching nothing
    /// else.
    fn enqueue_all(&mut self, tasks: Vec<Task<E, F>>)
        ensures
            final(self).model_spec() == old(self).model_spec(),
            final(self).queue_spec() == old(self).queue_spec() + tasks@,
            final(self).init_spec() == old(self).init_spec(),
            final(self).update_spec() == old(self).update_spec(),
            final(self).handle_spec() == old(self).handle_spec(),
            final(self).source_spec() == old(self).source_spec(),
            final(self).observe_spec() == old(self).observe_spec(),
    {
        let ghost pre: Seq<Task<E, F>> = self.taskq@;
        let ghost orig: Seq<Task<E, F>> = tasks@;
        let mut tasks = tasks;
        let ghost mut consumed: int = 0;
        while tasks.len() != 0
            invariant
                0 <= consumed <= orig.len(),
                consumed + tasks@.len() == orig.len(),
                self.taskq@ == pre + orig.take(consumed),
                tasks@ == orig.skip(consumed),
                self.model == old(self).model,
                self.init_fn == old(self).init_fn,
                self.update_fn == old(self).update_fn,
                self.handle_fn == old(self).handle_fn,
                self.source_fn == old(self).source_fn,
                self.observe_fn == old(self).observe_fn,
            decreases tasks@.len(),
        {
            let t = tasks.remove(0);
            self.taskq.push_back(t);
            proof {
                consumed = consumed + 1;
                assert(tasks@ =~= orig.skip(consumed));
                assert(self.taskq@ =~= pre + orig.take(consumed));
            }
        }
        proof {
            assert(orig.take(consumed) =~= orig);
        }
    }
}

} // verus!
