//! The interfaces between this library and a transport: the publishing side
//! and the consuming side. A transport implements them; none lives here.

use vstd::prelude::*;

verus! {

/// A subscription: each receive hands out the next event exactly once.
pub trait Listener {
    /// Why a receive failed; the subscription is over after it.
    type Error;

    /// What the subscription hands out.
    type Item;

    /// The next event, as soon as there is one, or the failure of the channel.
    fn recv(&mut self) -> Result<Self::Item, Self::Error>;
}

/// The publishing side of a transport that carries values of type `T`.
pub trait Service<T> {
    /// The subscriptions that this service hands out.
    type Listener: Listener<Item = T>;

    /// Why the transport did not take an event.
    type Error;

    /// Hands one event to the transport, which fans it out to the
    /// subscriptions of the moment.
    fn publish(&self, event: T) -> Result<(), Self::Error>;

    /// A new subscription, independent of every other one.
    fn listener(&self) -> Self::Listener;
}

} // verus!
