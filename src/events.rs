pub mod event;
pub mod one_shot_event;
pub mod subscription;

use vstd::prelude::*;
use crate::events::subscription::Subscription;

verus! {

/// A callback that an event runs with each value it is invoked with.
pub trait Handler<T>: Send + Sync {
    fn handle(&self, arg: &T);
}

impl<T, F: Fn(&T) + Send + Sync> Handler<T> for F {
    fn handle(&self, arg: &T) {
        call_closure(self, arg)
    }
}

/// Relies on calling the closure; what it does is its own affair.
#[verifier::external_body]
fn call_closure<T, F: Fn(&T)>(f: &F, arg: &T) {
    f(arg)
}

pub type EventHandler<T> = dyn Handler<T>;

pub trait Invokable<T> {
    fn invoke(&mut self, arg: &T);
}

/// Can only be invoked once; later invokes have no effect.
pub trait InvokableOnce<T> {
    fn invoke(&mut self, arg: T);
}

pub trait Subscribable<T> {
    fn subscribe(&mut self, event_handler: Box<EventHandler<T>>) -> Subscription<T>;
}

} // verus!
