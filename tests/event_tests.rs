use std::cell::RefCell;
use std::rc::Rc;
use std::sync::{Arc, Mutex};

use xs_rust_library::events::event::Event;
use xs_rust_library::events::one_shot_event::OneShotEvent;
use xs_rust_library::events::subscription::SubscriptionStorage;
use xs_rust_library::events::{Invokable, InvokableOnce, Subscribable};

#[test]
fn event_test() {
    let mut event = Event::<Arc<Mutex<i32>>>::new();
    let counter = Arc::new(Mutex::new(0));
    let counter2 = counter.clone();

    let handler = |i: &Arc<Mutex<i32>>| {
        *i.lock().unwrap() += 1;
    };

    let _subscription = event.subscribe(Box::from(handler));

    event.invoke(&counter2);

    assert_eq!(*counter.lock().unwrap(), 1);
}

#[test]
fn one_shot_test() {
    let mut event = OneShotEvent::<Rc<RefCell<i32>>>::new();
    let counter = Rc::new(RefCell::new(0));

    let callback = Box::new(|x: &Rc<RefCell<i32>>| {
        *x.borrow_mut() += 1;
    });

    let _sub = event.subscribe(callback.clone());
    event.invoke(counter.clone());
    let _sub = event.subscribe(callback);

    assert_eq!(*counter.as_ref().borrow(), 2);
}

fn recorder(log: &Arc<Mutex<Vec<(u8, i32)>>>, id: u8) -> Box<dyn Fn(&i32) + Send + Sync> {
    let log = log.clone();
    Box::new(move |v: &i32| log.lock().unwrap().push((id, *v)))
}

#[test]
fn event_calls_live_handlers_in_registration_order() {
    let log = Arc::new(Mutex::new(Vec::new()));
    let mut event = Event::<i32>::new();
    let _first = event.subscribe(Box::new(recorder(&log, 1)));
    let _second = event.subscribe(Box::new(recorder(&log, 2)));
    let _third = event.subscribe(Box::new(recorder(&log, 3)));

    event.invoke(&10);
    event.invoke(&20);

    assert_eq!(*log.lock().unwrap(), vec![(1, 10), (2, 10), (3, 10), (1, 20), (2, 20), (3, 20)]);
}

#[test]
fn dropped_subscription_is_not_called() {
    let log = Arc::new(Mutex::new(Vec::new()));
    let mut event = Event::<i32>::new();
    let _kept = event.subscribe(Box::new(recorder(&log, 1)));
    let dropped = event.subscribe(Box::new(recorder(&log, 2)));

    event.invoke(&1);
    drop(dropped);
    event.invoke(&2);

    assert_eq!(*log.lock().unwrap(), vec![(1, 1), (2, 1), (1, 2)]);
}

#[test]
fn unsubscribed_handler_is_not_called() {
    let log = Arc::new(Mutex::new(Vec::new()));
    let mut event = Event::<i32>::new();
    let mut sub = event.subscribe(Box::new(recorder(&log, 7)));
    sub.unsubscribe();

    event.invoke(&5);

    assert!(log.lock().unwrap().is_empty());
}

#[test]
fn event_without_subscribers_does_nothing() {
    let mut event = Event::<i32>::default();
    event.invoke(&3);
    let log = Arc::new(Mutex::new(Vec::new()));
    let _sub = event.subscribe(Box::new(recorder(&log, 1)));
    event.invoke(&4);
    assert_eq!(*log.lock().unwrap(), vec![(1, 4)]);
}

#[test]
fn one_shot_later_invokes_are_ignored() {
    let log = Arc::new(Mutex::new(Vec::new()));
    let mut event = OneShotEvent::<i32>::new();
    let _sub = event.subscribe(Box::new(recorder(&log, 1)));

    event.invoke(11);
    event.invoke(12);
    event.invoke(13);

    assert_eq!(*log.lock().unwrap(), vec![(1, 11)]);
}

#[test]
fn one_shot_late_subscriber_is_called_at_once_with_first_value() {
    let log = Arc::new(Mutex::new(Vec::new()));
    let mut event = OneShotEvent::<i32>::default();
    event.invoke(42);
    event.invoke(43);

    let _late = event.subscribe(Box::new(recorder(&log, 9)));
    assert_eq!(*log.lock().unwrap(), vec![(9, 42)]);

    event.invoke(44);
    assert_eq!(*log.lock().unwrap(), vec![(9, 42)]);
}

#[test]
fn one_shot_dropped_subscription_is_not_called() {
    let log = Arc::new(Mutex::new(Vec::new()));
    let mut event = OneShotEvent::<i32>::new();
    let dropped = event.subscribe(Box::new(recorder(&log, 1)));
    let _kept = event.subscribe(Box::new(recorder(&log, 2)));
    drop(dropped);

    event.invoke(8);

    assert_eq!(*log.lock().unwrap(), vec![(2, 8)]);
}

#[test]
fn storage_keeps_handlers_in_order() {
    let log = Arc::new(Mutex::new(Vec::new()));
    let mut storage = SubscriptionStorage::<i32>::new();
    let _a = storage.add_event_handler(Box::new(recorder(&log, 1)));
    let _b = storage.add_event_handler(Box::new(recorder(&log, 2)));
    assert_eq!(storage.inner_mut().len(), 2);
}
