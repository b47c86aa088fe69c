//! The mathematical model of the drain algorithm: a configuration is the
//! owned model together with the FIFO queue of pending tasks, and a step pops
//! the front task and commits what the corresponding callback returned. The
//! runtime's contracts state that every run is a chain of such steps.

use vstd::prelude::*;

use crate::hooks::{InitHook, ObserveHook};
use crate::transition::{First, Next, Task};

verus! {

/// A configuration of the runtime: the current model and the pending queue.
#[verifier::ext_equal]
pub ghost struct Cfg<M, E, F> {
    pub model: M,
    pub queue: Seq<Task<E, F>>,
}

/// The transition function accepts every model and every event.
pub open spec fn update_total<M, E, F, U: Fn(&M, E) -> Next<M, F>>(u: U) -> bool {
    forall|m: M, e: E| #[trigger] call_requires(u, (&m, e))
}

/// The effect-handling function accepts every model and every effect.
pub open spec fn handle_total<M, E, F, H: Fn(&M, F) -> Vec<E>>(h: H) -> bool {
    forall|m: M, f: F| #[trigger] call_requires(h, (&m, f))
}

/// The initializer, where configured, accepts every model.
pub open spec fn init_total<M, F, I: InitHook<M, F>>(i: Option<I>) -> bool {
    match i {
        Some(ic) => ic.callable(),
        None => true,
    }
}

/// The observer, where configured, accepts every model.
pub open spec fn observe_total<M, O: ObserveHook<M>>(o: Option<O>) -> bool {
    match o {
        Some(ob) => ob.callable(),
        None => true,
    }
}

/// Where an observer is configured, `m` is a model it was notified of: its
/// postcondition holds of `m`. Without an observer there is nothing to hold.
pub open spec fn observed<M, O: ObserveHook<M>>(o: Option<O>, m: M) -> bool {
    match o {
        Some(ob) => ob.notified(m),
        None => true,
    }
}

/// The effects of one transition, as tasks in the order they were returned.
pub open spec fn effect_tasks<E, F>(effects: Seq<F>) -> Seq<Task<E, F>> {
    effects.map_values(|f: F| Task::Effect(f))
}

/// The events one effect produced, as tasks in the order they were returned.
pub open spec fn event_tasks<E, F>(events: Seq<E>) -> Seq<Task<E, F>> {
    events.map_values(|e: E| Task::Event(e))
}

/// Committing the transition result `n` against the model `m1`: with a
/// replacement model, `m2` is that model and the observer was notified of it;
/// without one, the model stands. Either way the produced tasks are exactly
/// `n`'s effects, in order.
pub open spec fn commit<M, E, F, O: ObserveHook<M>>(
    o: Option<O>,
    m1: M,
    n: Next<M, F>,
    m2: M,
    out: Seq<Task<E, F>>,
) -> bool {
    &&& out == effect_tasks::<E, F>(n.effects_spec())
    &&& match n.model_spec() {
        Some(m) => m2 == m && observed(o, m),
        None => m2 == m1,
    }
}

/// Processing one task against the model `m1`: an event goes through the
/// transition function and is committed; an effect goes to the effect-handling
/// function with the model unchanged, its returned events becoming the
/// produced tasks, in order.
pub open spec fn process_task<
    M,
    E,
    F,
    U: Fn(&M, E) -> Next<M, F>,
    H: Fn(&M, F) -> Vec<E>,
    O: ObserveHook<M>,
>(u: U, h: H, o: Option<O>, m1: M, t: Task<E, F>, m2: M, out: Seq<Task<E, F>>) -> bool {
    match t {
        Task::Event(e) => exists|n: Next<M, F>|
            #[trigger] call_ensures(u, (&m1, e), n) && commit(o, m1, n, m2, out),
        Task::Effect(f) => exists|evs: Vec<E>|
            #[trigger] call_ensures(h, (&m1, f), evs) && m2 == m1 && out == event_tasks::<E, F>(
                evs@,
            ),
    }
}

/// One step of the drain: the front task is popped, processed against the
/// current model, and the tasks it produced are pushed at the back, in order.
pub open spec fn task_step<
    M,
    E,
    F,
    U: Fn(&M, E) -> Next<M, F>,
    H: Fn(&M, F) -> Vec<E>,
    O: ObserveHook<M>,
>(u: U, h: H, o: Option<O>, c1: Cfg<M, E, F>, c2: Cfg<M, E, F>) -> bool {
    &&& c1.queue.len() > 0
    &&& exists|out: Seq<Task<E, F>>|
        #[trigger] process_task(u, h, o, c1.model, c1.queue[0], c2.model, out) && c2.queue
            == c1.queue.drop_first() + out
}

/// `c2` is reached from `c1` in exactly `fuel` steps.
pub open spec fn steps_to<
    M,
    E,
    F,
    U: Fn(&M, E) -> Next<M, F>,
    H: Fn(&M, F) -> Vec<E>,
    O: ObserveHook<M>,
>(u: U, h: H, o: Option<O>, c1: Cfg<M, E, F>, c2: Cfg<M, E, F>, fuel: nat) -> bool
    decreases fuel,
{
    if fuel == 0 {
        c1 == c2
    } else {
        exists|c: Cfg<M, E, F>|
            #[trigger] task_step(u, h, o, c1, c) && steps_to(u, h, o, c, c2, (fuel - 1) as nat)
    }
}

/// `c2` is reached from `c1` by some finite chain of drain steps.
pub open spec fn reaches<
    M,
    E,
    F,
    U: Fn(&M, E) -> Next<M, F>,
    H: Fn(&M, F) -> Vec<E>,
    O: ObserveHook<M>,
>(u: U, h: H, o: Option<O>, c1: Cfg<M, E, F>, c2: Cfg<M, E, F>) -> bool {
    exists|fuel: nat| steps_to(u, h, o, c1, c2, fuel)
}

/// The initialization that the first run performs: without an initializer the
/// configuration stands; with one, the model is replaced by the returned
/// starting model, the observer is notified of it, and the starting effects
/// join the back of the queue, in order.
pub open spec fn init_step<M, E, F, I: InitHook<M, F>, O: ObserveHook<M>>(
    i: Option<I>,
    o: Option<O>,
    c1: Cfg<M, E, F>,
    c2: Cfg<M, E, F>,
) -> bool {
    match i {
        None => c2 == c1,
        Some(ic) => exists|fr: First<M, F>|
            #[trigger] ic.post(c1.model, fr) && c2.model == fr.model_spec() && observed(
                o,
                fr.model_spec(),
            ) && c2.queue == c1.queue + effect_tasks::<E, F>(fr.effects_spec()),
    }
}

/// `rank` bounds the drain from `c0`: every drain step taken from a
/// configuration reachable from `c0` strictly lowers it. Such a ranking
/// function is what makes a drain finite.
pub open spec fn drain_bounded<
    M,
    E,
    F,
    U: Fn(&M, E) -> Next<M, F>,
    H: Fn(&M, F) -> Vec<E>,
    O: ObserveHook<M>,
>(u: U, h: H, o: Option<O>, c0: Cfg<M, E, F>, rank: spec_fn(Cfg<M, E, F>) -> nat) -> bool {
    forall|c1: Cfg<M, E, F>, c2: Cfg<M, E, F>|
        reaches(u, h, o, c0, c1) && #[trigger] task_step(u, h, o, c1, c2) ==> rank(c2) < rank(c1)
}

/// The callbacks are finite-generating from `c0`: some ranking function
/// bounds the drain, so processing cannot go on forever. Draining a
/// configuration whose callbacks keep producing new tasks indefinitely never
/// returns, and no ranking function exists for it.
pub open spec fn finitely_generating<
    M,
    E,
    F,
    U: Fn(&M, E) -> Next<M, F>,
    H: Fn(&M, F) -> Vec<E>,
    O: ObserveHook<M>,
>(u: U, h: H, o: Option<O>, c0: Cfg<M, E, F>) -> bool {
    exists|rank: spec_fn(Cfg<M, E, F>) -> nat| drain_bounded(u, h, o, c0, rank)
}

/// Every configuration reaches itself, by the empty chain of steps.
pub proof fn lemma_reaches_refl<
    M,
    E,
    F,
    U: Fn(&M, E) -> Next<M, F>,
    H: Fn(&M, F) -> Vec<E>,
    O: ObserveHook<M>,
>(u: U, h: H, o: Option<O>, c: Cfg<M, E, F>)
    ensures
        reaches(u, h, o, c, c),
{
    assert(steps_to(u, h, o, c, c, 0));
}

proof fn lemma_steps_to_extend<
    M,
    E,
    F,
    U: Fn(&M, E) -> Next<M, F>,
    H: Fn(&M, F) -> Vec<E>,
    O: ObserveHook<M>,
>(u: U, h: H, o: Option<O>, c0: Cfg<M, E, F>, c1: Cfg<M, E, F>, c2: Cfg<M, E, F>, fuel: nat)
    requires
        steps_to(u, h, o, c0, c1, fuel),
        task_step(u, h, o, c1, c2),
    ensures
        steps_to(u, h, o, c0, c2, fuel + 1),
    decreases fuel,
{
    if fuel == 0 {
        assert(task_step(u, h, o, c0, c2) && steps_to(u, h, o, c2, c2, 0));
    } else {
        let c = choose|c: Cfg<M, E, F>|
            #[trigger] task_step(u, h, o, c0, c) && steps_to(u, h, o, c, c1, (fuel - 1) as nat);
        lemma_steps_to_extend(u, h, o, c, c1, c2, (fuel - 1) as nat);
        assert(task_step(u, h, o, c0, c) && steps_to(u, h, o, c, c2, fuel));
    }
}

/// Reachability is closed under appending one further drain step.
pub proof fn lemma_reaches_extend<
    M,
    E,
    F,
    U: Fn(&M, E) -> Next<M, F>,
    H: Fn(&M, F) -> Vec<E>,
    O: ObserveHook<M>,
>(u: U, h: H, o: Option<O>, c0: Cfg<M, E, F>, c1: Cfg<M, E, F>, c2: Cfg<M, E, F>)
    requires
        reaches(u, h, o, c0, c1),
        task_step(u, h, o, c1, c2),
    ensures
        reaches(u, h, o, c0, c2),
{
    let fuel = choose|fuel: nat| steps_to(u, h, o, c0, c1, fuel);
    lemma_steps_to_extend(u, h, o, c0, c1, c2, fuel);
}

/// The observer misses no accepted replacement: whenever a drain step leaves
/// the model changed, the observer was notified of the new model. A step that
/// commits `no_change()` keeps the model, so it promises nothing of the
/// observer here; that it stays silent is a matter of the runtime not calling
/// it, which no contract on the observer itself could express.
pub proof fn lemma_step_observes_change<
    M,
    E,
    F,
    U: Fn(&M, E) -> Next<M, F>,
    H: Fn(&M, F) -> Vec<E>,
    O: ObserveHook<M>,
>(u: U, h: H, o: Option<O>, c1: Cfg<M, E, F>, c2: Cfg<M, E, F>)
    requires
        task_step(u, h, o, c1, c2),
        c1.model != c2.model,
    ensures
        observed(o, c2.model),
{
    let out = choose|out: Seq<Task<E, F>>|
        #[trigger] process_task(u, h, o, c1.model, c1.queue[0], c2.model, out) && c2.queue
            == c1.queue.drop_first() + out;
    match c1.queue[0] {
        Task::Event(e) => {
            let n = choose|n: Next<M, F>|
                #[trigger] call_ensures(u, (&c1.model, e), n) && commit(o, c1.model, n, c2.model, out);
            assert(n.model_spec() is Some);
        },
        Task::Effect(f) => {
            assert(false);
        },
    }
}

/// The observer misses no initialization either: where an initializer is
/// configured, the initialization step replaces the model with the starting
/// model and notifies the observer of it.
pub proof fn lemma_init_observes<M, E, F, I: InitHook<M, F>, O: ObserveHook<M>>(
    i: Option<I>,
    o: Option<O>,
    c1: Cfg<M, E, F>,
    c2: Cfg<M, E, F>,
)
    requires
        i is Some,
        init_step(i, o, c1, c2),
    ensures
        observed(o, c2.model),
{
    match i {
        Some(ic) => {
            let fr = choose|fr: First<M, F>|
                #[trigger] ic.post(c1.model, fr) && c2.model == fr.model_spec() && observed(
                    o,
                    fr.model_spec(),
                ) && c2.queue == c1.queue + effect_tasks::<E, F>(fr.effects_spec());
        },
        None => {},
    }
}

/// FIFO for two events dispatched in order: after the drain has processed
/// both, the queue holds the effects the first transition requested, in
/// order, followed by those of the second. The front task is always the one
/// processed next, so every effect of the first event is handled strictly
/// before any effect of the second.
pub proof fn lemma_fifo_two_events<
    M,
    E,
    F,
    U: Fn(&M, E) -> Next<M, F>,
    H: Fn(&M, F) -> Vec<E>,
    O: ObserveHook<M>,
>(u: U, h: H, o: Option<O>, c0: Cfg<M, E, F>, c1: Cfg<M, E, F>, c2: Cfg<M, E, F>, e1: E, e2: E)
    requires
        c0.queue == seq![Task::<E, F>::Event(e1), Task::<E, F>::Event(e2)],
        task_step(u, h, o, c0, c1),
        task_step(u, h, o, c1, c2),
    ensures
        exists|n1: Next<M, F>, n2: Next<M, F>|
            {
                &&& #[trigger] call_ensures(u, (&c0.model, e1), n1)
                &&& #[trigger] call_ensures(u, (&c1.model, e2), n2)
                &&& c2.queue == effect_tasks::<E, F>(n1.effects_spec()) + effect_tasks::<E, F>(
                    n2.effects_spec(),
                )
            },
{
    let out1 = choose|out: Seq<Task<E, F>>|
        #[trigger] process_task(u, h, o, c0.model, c0.queue[0], c1.model, out) && c1.queue
            == c0.queue.drop_first() + out;
    let n1 = choose|n: Next<M, F>|
        #[trigger] call_ensures(u, (&c0.model, e1), n) && commit(o, c0.model, n, c1.model, out1);
    let out2 = choose|out: Seq<Task<E, F>>|
        #[trigger] process_task(u, h, o, c1.model, c1.queue[0], c2.model, out) && c2.queue
            == c1.queue.drop_first() + out;
    assert(c1.queue[0] == Task::<E, F>::Event(e2));
    let n2 = choose|n: Next<M, F>|
        #[trigger] call_ensures(u, (&c1.model, e2), n) && commit(o, c1.model, n, c2.model, out2);
    assert(c1.queue.drop_first() =~= effect_tasks::<E, F>(n1.effects_spec()));
    assert(c2.queue =~= effect_tasks::<E, F>(n1.effects_spec()) + effect_tasks::<E, F>(
        n2.effects_spec(),
    ));
}

/// An event whose transition can only be `no_change()` is popped and leaves
/// no trace: the model stands and nothing joins the queue.
pub proof fn lemma_no_change_event<
    M,
    E,
    F,
    U: Fn(&M, E) -> Next<M, F>,
    H: Fn(&M, F) -> Vec<E>,
    O: ObserveHook<M>,
>(u: U, h: H, o: Option<O>, e: E, c1: Cfg<M, E, F>, c2: Cfg<M, E, F>)
    requires
        c1.queue.len() > 0,
        c1.queue[0] == Task::<E, F>::Event(e),
        forall|n: Next<M, F>| #[trigger]
            call_ensures(u, (&c1.model, e), n) ==> n.model_spec() is None && n.effects_spec()
                == Seq::<F>::empty(),
        task_step(u, h, o, c1, c2),
    ensures
        c2.model == c1.model,
        c2.queue == c1.queue.drop_first(),
{
    let out = choose|out: Seq<Task<E, F>>|
        #[trigger] process_task(u, h, o, c1.model, c1.queue[0], c2.model, out) && c2.queue
            == c1.queue.drop_first() + out;
    let n = choose|n: Next<M, F>|
        #[trigger] call_ensures(u, (&c1.model, e), n) && commit(o, c1.model, n, c2.model, out);
    assert(out =~= Seq::<Task<E, F>>::empty());
    assert(c2.queue =~= c1.queue.drop_first());
}

/// A runtime whose initializer slot is empty performs no initialization: its
/// configuration stands untouched. After any run the slot is empty, so a
/// second run begins with exactly this vacuous step: the initializer runs at
/// most once over the life of a runtime.
pub proof fn lemma_init_none<M, E, F, I: InitHook<M, F>, O: ObserveHook<M>>(
    i: Option<I>,
    o: Option<O>,
    c1: Cfg<M, E, F>,
    c2: Cfg<M, E, F>,
)
    requires
        i is None,
        init_step(i, o, c1, c2),
    ensures
        c2 == c1,
{
}

/// A chain of drain steps between two distinct configurations opens with one
/// step: some configuration one step away from the first still reaches the
/// second.
pub proof fn lemma_reaches_first_step<
    M,
    E,
    F,
    U: Fn(&M, E) -> Next<M, F>,
    H: Fn(&M, F) -> Vec<E>,
    O: ObserveHook<M>,
>(u: U, h: H, o: Option<O>, c1: Cfg<M, E, F>, c2: Cfg<M, E, F>)
    requires
        reaches(u, h, o, c1, c2),
        c1 != c2,
    ensures
        exists|cm: Cfg<M, E, F>|
            #[trigger] task_step(u, h, o, c1, cm) && reaches(u, h, o, cm, c2),
{
    let fuel = choose|fuel: nat| steps_to(u, h, o, c1, c2, fuel);
    assert(steps_to(u, h, o, c1, c2, fuel));
    if fuel == 0 {
        assert(c1 == c2);
    } else {
        let cm = choose|cm: Cfg<M, E, F>|
            #[trigger] task_step(u, h, o, c1, cm) && steps_to(u, h, o, cm, c2, (fuel - 1) as nat);
        assert(reaches(u, h, o, cm, c2)) by {
            assert(steps_to(u, h, o, cm, c2, (fuel - 1) as nat));
        }
        assert(task_step(u, h, o, c1, cm) && reaches(u, h, o, cm, c2));
    }
}

/// No drain step leaves an empty queue: whatever a configuration with an
/// empty queue reaches is that configuration itself.
pub proof fn lemma_reaches_from_empty<
    M,
    E,
    F,
    U: Fn(&M, E) -> Next<M, F>,
    H: Fn(&M, F) -> Vec<E>,
    O: ObserveHook<M>,
>(u: U, h: H, o: Option<O>, c1: Cfg<M, E, F>, c2: Cfg<M, E, F>)
    requires
        reaches(u, h, o, c1, c2),
        c1.queue.len() == 0,
    ensures
        c2 == c1,
{
    let fuel = choose|fuel: nat| steps_to(u, h, o, c1, c2, fuel);
    lemma_steps_from_empty(u, h, o, c1, c2, fuel);
}

proof fn lemma_steps_from_empty<
    M,
    E,
    F,
    U: Fn(&M, E) -> Next<M, F>,
    H: Fn(&M, F) -> Vec<E>,
    O: ObserveHook<M>,
>(u: U, h: H, o: Option<O>, c1: Cfg<M, E, F>, c2: Cfg<M, E, F>, fuel: nat)
    requires
        steps_to(u, h, o, c1, c2, fuel),
        c1.queue.len() == 0,
    ensures
        c2 == c1,
    decreases fuel,
{
    if fuel != 0 {
        let c = choose|c: Cfg<M, E, F>|
            #[trigger] task_step(u, h, o, c1, c) && steps_to(u, h, o, c, c2, (fuel - 1) as nat);
    }
}

} // verus!
