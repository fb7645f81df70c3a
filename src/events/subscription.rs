use vstd::prelude::*;
use std::sync::Arc;
use crate::events::EventHandler;
use crate::util::shared::share;

verus! {

/// A registered handler, shared between the event and the subscription
/// that keeps it registered.
pub type SharedHandler<T> = Arc<Box<EventHandler<T>>>;

/// Relies on `Arc::strong_count`: how many pointers to the handler exist
/// right now, which other owners may change at any time.
#[verifier::external_body]
pub(crate) fn handler_owners<T>(handler: &SharedHandler<T>) -> (r: usize) {
    Arc::strong_count(handler)
}

/// Keeps a handler registered for as long as it lives; dropping it, or
/// calling `unsubscribe`, lets the event forget the handler at its next
/// invocation.
#[verifier::reject_recursive_types(T)]
pub struct Subscription<T> {
    shared_ptr: Option<SharedHandler<T>>,
}

impl<T> Subscription<T> {
    pub closed spec fn handler(&self) -> Option<SharedHandler<T>> {
        self.shared_ptr
    }

    pub fn new(shared: SharedHandler<T>) -> (r: Subscription<T>)
        ensures
            r.handler() == Some(shared),
    {
        Subscription::<T> { shared_ptr: Some(shared) }
    }

    pub fn unsubscribe(&mut self)
        ensures
            final(self).handler() is None,
    {
        self.shared_ptr = None;
    }
}

/// The handlers an event calls, in the order they were registered. The
/// event holds one pointer to each and its subscription the other; a
/// handler whose subscription is gone is no longer called.
#[verifier::reject_recursive_types(T)]
pub struct SubscriptionStorage<T> {
    subscribers: Vec<SharedHandler<T>>,
}

impl<T> SubscriptionStorage<T> {
    pub closed spec fn handlers(&self) -> Seq<SharedHandler<T>> {
        self.subscribers@
    }

    pub fn new() -> (r: Self)
        ensures
            r.handlers() == Seq::<SharedHandler<T>>::empty(),
    {
        Self { subscribers: Vec::new() }
    }

    /// Registers a handler at the end of the list; the subscription returned
    /// holds it.
    pub fn add_event_handler(&mut self, event_handler: Box<EventHandler<T>>) -> (r: Subscription<T>)
        ensures
            r.handler() is Some,
            final(self).handlers() == old(self).handlers().push(r.handler()->0),
    {
        let ref_subscriber = Arc::new(event_handler);
        self.subscribers.push(share(&ref_subscriber));
        Subscription::new(ref_subscriber)
    }

    pub fn inner_mut(&mut self) -> (r: &mut Vec<SharedHandler<T>>)
        ensures
            r@ == old(self).handlers(),
            final(self).handlers() == final(r)@,
    {
        &mut self.subscribers
    }
}

impl<T> Default for SubscriptionStorage<T> {
    fn default() -> (r: Self)
        ensures
            r.handlers() == Seq::<SharedHandler<T>>::empty(),
    {
        Self::new()
    }
}

} // verus!
