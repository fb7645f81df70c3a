use vstd::prelude::*;
use std::sync::Arc;
use crate::events::subscription::{SharedHandler, Subscription, SubscriptionStorage};
use crate::events::event::invoke_live;
use crate::events::{EventHandler, InvokableOnce, Subscribable};

verus! {

/// Calls all subscribers on its first invoke. Subscribers that come after
/// it are called at once with the value of that first invoke.
#[verifier::reject_recursive_types(T)]
pub struct OneShotEvent<T> {
    subscribers: SubscriptionStorage<T>,
    args: Option<T>,
}

impl<T> OneShotEvent<T> {
    /// The registered handlers, in registration order.
    pub closed spec fn handlers(&self) -> Seq<SharedHandler<T>> {
        self.subscribers.handlers()
    }

    /// The value of the first invoke, once there was one.
    pub closed spec fn fired_with(&self) -> Option<T> {
        self.args
    }

    pub fn new() -> (r: OneShotEvent<T>)
        ensures
            r.handlers() == Seq::<SharedHandler<T>>::empty(),
            r.fired_with() is None,
    {
        OneShotEvent::<T> { subscribers: SubscriptionStorage::new(), args: None }
    }
}

impl<T> Default for OneShotEvent<T> {
    fn default() -> (r: Self)
        ensures
            r.handlers() == Seq::<SharedHandler<T>>::empty(),
            r.fired_with() is None,
    {
        Self::new()
    }
}

impl<T> InvokableOnce<T> for OneShotEvent<T> {
    /// The first invoke calls every live handler with `arg`, keeps `arg`
    /// and lets go of the handlers; any later invoke changes nothing.
    fn invoke(&mut self, arg: T)
        ensures
            old(self).fired_with() is Some ==> final(self).fired_with() == old(self).fired_with()
                && final(self).handlers() == old(self).handlers(),
            old(self).fired_with() is None ==> final(self).fired_with() == Some(arg)
                && final(self).handlers() == Seq::<SharedHandler<T>>::empty(),
    {
        if self.args.is_some() {
            return;
        }
        invoke_live(self.subscribers.inner_mut(), &arg);
        self.subscribers.inner_mut().clear();
        self.args = Some(arg);
    }
}

impl<T> Subscribable<T> for OneShotEvent<T> {
    /// Before the first invoke, registers the handler. After it, calls the
    /// handler once with the value of that invoke and returns a
    /// subscription that is registered nowhere.
    fn subscribe(&mut self, event_handler: Box<EventHandler<T>>) -> (r: Subscription<T>)
        ensures
            r.handler() is Some,
            final(self).fired_with() == old(self).fired_with(),
            old(self).fired_with() is Some ==> final(self).handlers() == old(self).handlers(),
            old(self).fired_with() is None ==> final(self).handlers() == old(self).handlers().push(
                r.handler()->0,
            ),
    {
        match &self.args {
            Some(v) => {
                event_handler.handle(v);
                Subscription::new(Arc::new(event_handler))
            },
            None => self.subscribers.add_event_handler(event_handler),
        }
    }
}

} // verus!
