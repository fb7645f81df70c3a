use vstd::prelude::*;
use crate::events::subscription::{handler_owners, SharedHandler, Subscription, SubscriptionStorage};
use crate::util::shared::share;
use crate::events::{EventHandler, Invokable, Subscribable};

verus! {

/// The entries of `s` whose flag in `live` is set, in their order.
pub open spec fn kept<A>(s: Seq<A>, live: Seq<bool>) -> Seq<A>
    decreases s.len(),
{
    if s.len() == 0 {
        Seq::empty()
    } else {
        let before = kept(s.drop_last(), live.drop_last());
        if live.last() {
            before.push(s.last())
        } else {
            before
        }
    }
}

/// Calls every live handler, in registration order, and forgets the
/// handlers whose subscription is gone.
pub(crate) fn invoke_live<T>(list: &mut Vec<SharedHandler<T>>, arg: &T)
    ensures
        exists|live: Seq<bool>| live.len() == old(list)@.len() && final(list)@ == kept(old(list)@, live),
{
    let mut all: Vec<SharedHandler<T>> = Vec::new();
    std::mem::swap(list, &mut all);
    let ghost live: Seq<bool> = Seq::empty();
    let mut i: usize = 0;
    while i < all.len()
        invariant
            0 <= i <= all@.len(),
            live.len() == i,
            list@ == kept(all@.take(i as int), live),
        decreases all@.len() - i,
    {
        let handler = &all[i];
        let ghost before = live;
        assert(all@.take(i + 1).drop_last() =~= all@.take(i as int));
        assert(all@.take(i + 1).last() == all@[i as int]);
        if handler_owners(handler) > 1 {
            handler.handle(arg);
            list.push(share(handler));
            proof {
                live = live.push(true);
            }
        } else {
            proof {
                live = live.push(false);
            }
        }
        assert(live.drop_last() =~= before);
        assert(list@ == kept(all@.take(i + 1), live));
        i = i + 1;
    }
    assert(all@.take(all@.len() as int) =~= all@);
}

/// Calls all subscribed handlers on invoke.
#[verifier::reject_recursive_types(T)]
pub struct Event<T> {
    subscribers: SubscriptionStorage<T>,
}

impl<T> Event<T> {
    /// The registered handlers, in registration order.
    pub closed spec fn handlers(&self) -> Seq<SharedHandler<T>> {
        self.subscribers.handlers()
    }

    pub fn new() -> (r: Self)
        ensures
            r.handlers() == Seq::<SharedHandler<T>>::empty(),
    {
        Self { subscribers: SubscriptionStorage::new() }
    }
}

impl<T> Default for Event<T> {
    fn default() -> (r: Self)
        ensures
            r.handlers() == Seq::<SharedHandler<T>>::empty(),
    {
        Self::new()
    }
}

impl<T> Invokable<T> for Event<T> {
    /// Calls each handler whose subscription is alive, in registration
    /// order; the others are forgotten.
    fn invoke(&mut self, arg: &T)
        ensures
            exists|live: Seq<bool>|
                live.len() == old(self).handlers().len() && final(self).handlers() == kept(
                    old(self).handlers(),
                    live,
                ),
    {
        invoke_live(self.subscribers.inner_mut(), arg);
    }
}

impl<T> Subscribable<T> for Event<T> {
    fn subscribe(&mut self, event_handler: Box<EventHandler<T>>) -> (r: Subscription<T>)
        ensures
            r.handler() is Some,
            final(self).handlers() == old(self).handlers().push(r.handler()->0),
    {
        self.subscribers.add_event_handler(event_handler)
    }
}

} // verus!
