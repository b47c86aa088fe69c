use std::cell::RefCell;
use std::rc::Rc;

use mobius::{Builder, First, Next, SerialLoop, Unset};

#[derive(Clone, Copy, PartialEq, Eq, Debug)]
enum Event {
    Increment,
    Decrement,
}

#[derive(Clone, Copy, PartialEq, Eq, Debug)]
enum Effect {
    Error,
}

fn counter_update(m: &u64, e: Event) -> Next<u64, Effect> {
    match e {
        Event::Increment => Next::next(m + 1, Vec::new()),
        Event::Decrement => {
            if *m == 0 {
                Next::dispatch(Effect::Error)
            } else {
                Next::next(m - 1, Vec::new())
            }
        }
    }
}

#[test]
fn counter_scenario() {
    let observations: Rc<RefCell<Vec<u64>>> = Rc::new(RefCell::new(Vec::new()));
    let errors: Rc<RefCell<u32>> = Rc::new(RefCell::new(0));
    let seen = Rc::clone(&observations);
    let err = Rc::clone(&errors);
    let handle = move |_m: &u64, f: Effect| -> Vec<Event> {
        match f {
            Effect::Error => *err.borrow_mut() += 1,
        }
        Vec::new()
    };
    let observe = move |m: &u64| seen.borrow_mut().push(*m);
    let l = Builder::new(counter_update, handle).observe(observe).start(1u64);
    let l = l
        .dispatch(Event::Increment)
        .dispatch(Event::Increment)
        .dispatch(Event::Decrement)
        .dispatch(Event::Decrement)
        .dispatch(Event::Decrement)
        .run();
    assert_eq!(*l.current(), 0);
    assert_eq!(*observations.borrow(), vec![2, 3, 2, 1, 0]);
    assert_eq!(*errors.borrow(), 0);
    // a further decrement at zero: the error effect, no state change, and the
    // observer stays silent
    let l = l.dispatch(Event::Decrement).run();
    assert_eq!(*l.current(), 0);
    assert_eq!(*errors.borrow(), 1);
    assert_eq!(*observations.borrow(), vec![2, 3, 2, 1, 0]);
}

#[test]
fn run_drains_queue_to_empty() {
    let updates: Rc<RefCell<u32>> = Rc::new(RefCell::new(0));
    let handles: Rc<RefCell<u32>> = Rc::new(RefCell::new(0));
    let uc = Rc::clone(&updates);
    let hc = Rc::clone(&handles);
    let update = move |m: &u64, _e: ()| -> Next<u64, u8> {
        *uc.borrow_mut() += 1;
        Next::next(m + 1, vec![0u8])
    };
    let handle = move |_m: &u64, _f: u8| -> Vec<()> {
        *hc.borrow_mut() += 1;
        Vec::new()
    };
    let l = Builder::new(update, handle).start(0u64);
    let l = l.dispatch(()).dispatch(()).run();
    assert_eq!(*l.current(), 2);
    assert_eq!(*updates.borrow(), 2);
    assert_eq!(*handles.borrow(), 2);
    // the queue was drained: a second run finds nothing to do
    let l = l.run();
    assert_eq!(*l.current(), 2);
    assert_eq!(*updates.borrow(), 2);
    assert_eq!(*handles.borrow(), 2);
}

#[test]
fn no_change_leaves_state_queue_and_observer_alone() {
    let updates: Rc<RefCell<u32>> = Rc::new(RefCell::new(0));
    let handles: Rc<RefCell<u32>> = Rc::new(RefCell::new(0));
    let observed: Rc<RefCell<u32>> = Rc::new(RefCell::new(0));
    let uc = Rc::clone(&updates);
    let hc = Rc::clone(&handles);
    let oc = Rc::clone(&observed);
    let update = move |_m: &u64, _e: ()| -> Next<u64, u8> {
        *uc.borrow_mut() += 1;
        Next::no_change()
    };
    let handle = move |_m: &u64, _f: u8| -> Vec<()> {
        *hc.borrow_mut() += 1;
        Vec::new()
    };
    let observe = move |_m: &u64| *oc.borrow_mut() += 1;
    let l = Builder::new(update, handle).observe(observe).start(42u64);
    let l = l.dispatch(()).dispatch(()).dispatch(()).run();
    assert_eq!(*l.current(), 42);
    assert_eq!(*updates.borrow(), 3);
    assert_eq!(*handles.borrow(), 0);
    assert_eq!(*observed.borrow(), 0);
}

#[test]
fn observer_sees_each_accepted_model_once() {
    let observations: Rc<RefCell<Vec<u64>>> = Rc::new(RefCell::new(Vec::new()));
    let seen = Rc::clone(&observations);
    let update = |m: &u64, _e: ()| -> Next<u64, u8> { Next::next(m + 1, Vec::new()) };
    let handle = |_m: &u64, _f: u8| -> Vec<()> { Vec::new() };
    let observe = move |m: &u64| seen.borrow_mut().push(*m);
    let l = Builder::new(update, handle).observe(observe).start(1u64);
    let l = l.dispatch(()).dispatch(()).dispatch(()).run();
    assert_eq!(*l.current(), 4);
    assert_eq!(*observations.borrow(), vec![2, 3, 4]);
}

#[derive(Clone, Copy, PartialEq, Eq, Debug)]
enum Tag {
    A,
    B,
    C,
}

#[derive(Clone, Copy, PartialEq, Eq, Debug)]
enum Out {
    FromA,
    FromB,
}

#[test]
fn fifo_first_event_effect_handled_first() {
    let order: Rc<RefCell<Vec<&'static str>>> = Rc::new(RefCell::new(Vec::new()));
    let uo = Rc::clone(&order);
    let ho = Rc::clone(&order);
    let update = move |_m: &u64, e: Tag| -> Next<u64, Out> {
        match e {
            Tag::A => {
                uo.borrow_mut().push("update A");
                Next::dispatch(Out::FromA)
            }
            Tag::B => {
                uo.borrow_mut().push("update B");
                Next::dispatch(Out::FromB)
            }
            Tag::C => {
                uo.borrow_mut().push("update C");
                Next::no_change()
            }
        }
    };
    let handle = move |_m: &u64, f: Out| -> Vec<Tag> {
        match f {
            Out::FromA => {
                ho.borrow_mut().push("handle FromA");
                vec![Tag::C]
            }
            Out::FromB => {
                ho.borrow_mut().push("handle FromB");
                Vec::new()
            }
        }
    };
    let l = Builder::new(update, handle).start(0u64);
    let _l = l.dispatch(Tag::A).dispatch(Tag::B).run();
    // breadth-first: both dispatched events go first, then their effects in
    // dispatch order, then the event the first effect produced
    assert_eq!(
        *order.borrow(),
        vec!["update A", "update B", "handle FromA", "handle FromB", "update C"]
    );
}

#[derive(Clone, Copy, PartialEq, Eq, Debug)]
enum Chord {
    Strike,
    EchoOne,
    EchoTwo,
}

#[derive(Clone, Copy, PartialEq, Eq, Debug)]
enum Note {
    First,
    Second,
    Third,
}

#[test]
fn produced_tasks_keep_their_returned_order() {
    let order: Rc<RefCell<Vec<&'static str>>> = Rc::new(RefCell::new(Vec::new()));
    let uo = Rc::clone(&order);
    let ho = Rc::clone(&order);
    let update = move |m: &u64, e: Chord| -> Next<u64, Note> {
        match e {
            Chord::Strike => {
                uo.borrow_mut().push("update Strike");
                Next::next(m + 1, vec![Note::First, Note::Second, Note::Third])
            }
            Chord::EchoOne => {
                uo.borrow_mut().push("update EchoOne");
                Next::no_change()
            }
            Chord::EchoTwo => {
                uo.borrow_mut().push("update EchoTwo");
                Next::no_change()
            }
        }
    };
    let handle = move |_m: &u64, f: Note| -> Vec<Chord> {
        match f {
            Note::First => {
                ho.borrow_mut().push("handle First");
                vec![Chord::EchoOne, Chord::EchoTwo]
            }
            Note::Second => {
                ho.borrow_mut().push("handle Second");
                Vec::new()
            }
            Note::Third => {
                ho.borrow_mut().push("handle Third");
                Vec::new()
            }
        }
    };
    let l = Builder::new(update, handle).start(0u64);
    let _l = l.dispatch(Chord::Strike).run();
    assert_eq!(
        *order.borrow(),
        vec![
            "update Strike",
            "handle First",
            "handle Second",
            "handle Third",
            "update EchoOne",
            "update EchoTwo"
        ]
    );
}

#[derive(Clone, Copy, PartialEq, Eq, Debug)]
enum Boot {
    Warmup,
}

#[test]
fn init_runs_once_across_runs() {
    let inits: Rc<RefCell<u32>> = Rc::new(RefCell::new(0));
    let warmups: Rc<RefCell<u32>> = Rc::new(RefCell::new(0));
    let observations: Rc<RefCell<Vec<u64>>> = Rc::new(RefCell::new(Vec::new()));
    let ic = Rc::clone(&inits);
    let wc = Rc::clone(&warmups);
    let seen = Rc::clone(&observations);
    let update = |m: &u64, _e: ()| -> Next<u64, Boot> { Next::next(m + 1, Vec::new()) };
    let handle = move |_m: &u64, f: Boot| -> Vec<()> {
        match f {
            Boot::Warmup => *wc.borrow_mut() += 1,
        }
        Vec::new()
    };
    let init = move |_m: &u64| -> First<u64, Boot> {
        *ic.borrow_mut() += 1;
        First::first(10, vec![Boot::Warmup])
    };
    let observe = move |m: &u64| seen.borrow_mut().push(*m);
    let l = Builder::new(update, handle)
        .init(init)
        .observe(observe)
        .start(99u64);
    let l = l.run();
    // the starting model replaced the seed, the observer saw it, and the
    // starting effect was handled
    assert_eq!(*l.current(), 10);
    assert_eq!(*inits.borrow(), 1);
    assert_eq!(*warmups.borrow(), 1);
    assert_eq!(*observations.borrow(), vec![10]);
    // a second run does not re-run the initializer
    let l = l.dispatch(()).run();
    assert_eq!(*l.current(), 11);
    assert_eq!(*inits.borrow(), 1);
    assert_eq!(*warmups.borrow(), 1);
    assert_eq!(*observations.borrow(), vec![10, 11]);
}

#[test]
fn init_replaces_model_before_queued_events_are_processed() {
    let order: Rc<RefCell<Vec<&'static str>>> = Rc::new(RefCell::new(Vec::new()));
    let models: Rc<RefCell<Vec<u64>>> = Rc::new(RefCell::new(Vec::new()));
    let uo = Rc::clone(&order);
    let um = Rc::clone(&models);
    let ho = Rc::clone(&order);
    let io = Rc::clone(&order);
    let update = move |m: &u64, _e: ()| -> Next<u64, Boot> {
        uo.borrow_mut().push("update");
        um.borrow_mut().push(*m);
        Next::next(m + 1, Vec::new())
    };
    let handle = move |_m: &u64, _f: Boot| -> Vec<()> {
        ho.borrow_mut().push("handle Warmup");
        Vec::new()
    };
    let init = move |_m: &u64| -> First<u64, Boot> {
        io.borrow_mut().push("init");
        First::first(10, vec![Boot::Warmup])
    };
    let l = Builder::new(update, handle).init(init).start(0u64);
    // the event sits in the queue before the first run; initialization still
    // comes first, and its starting effect joins the back of the queue
    let l = l.dispatch(()).run();
    assert_eq!(*l.current(), 11);
    assert_eq!(*order.borrow(), vec!["init", "update", "handle Warmup"]);
    assert_eq!(*models.borrow(), vec![10]);
}

#[test]
fn builder_without_init_processes_only_dispatched_events() {
    let update = |m: &u64, _e: ()| -> Next<u64, u8> { Next::next(m + 1, Vec::new()) };
    let handle = |_m: &u64, _f: u8| -> Vec<()> { Vec::new() };
    let l = Builder::new(update, handle).start(0u64);
    let l = l.run();
    assert_eq!(*l.current(), 0);
    let l = l.dispatch(()).dispatch(()).run();
    assert_eq!(*l.current(), 2);
}

#[test]
fn source_is_reserved_and_never_invoked() {
    let sources: Rc<RefCell<u32>> = Rc::new(RefCell::new(0));
    let sc = Rc::clone(&sources);
    let update = |m: &u64, _e: ()| -> Next<u64, u8> { Next::next(m + 1, Vec::new()) };
    let handle = |_m: &u64, _f: u8| -> Vec<()> { Vec::new() };
    let source = move |_m: &u64| -> Vec<()> {
        *sc.borrow_mut() += 1;
        vec![()]
    };
    let l = Builder::new(update, handle).source(source).start(5u64);
    let l = l.dispatch(()).run();
    assert_eq!(*l.current(), 6);
    assert_eq!(*sources.borrow(), 0);
}

#[test]
fn serial_loop_built_directly() {
    let update = |m: &u64, _e: ()| -> Next<u64, u8> { Next::next(m + 1, Vec::new()) };
    let handle = |_m: &u64, _f: u8| -> Vec<()> { Vec::new() };
    let l: SerialLoop<u64, (), u8, Unset, _, _, Unset, Unset> =
        SerialLoop::new(3u64, None, update, handle, None, None);
    assert_eq!(*l.current(), 3);
    let l = l.dispatch(()).run();
    assert_eq!(*l.current(), 4);
}
