//! An ordered multicast callback registry: the notification channel that an
//! [`ObservableProperty`](crate::observable_property::ObservableProperty)
//! fires around each change of its value.

use vstd::prelude::*;

use crate::observable_property::ObservableProperty;

verus! {

/// The handler storage of a channel: an `event_rs::Event` whose argument type
/// is the owning cell, so every handler receives a reference to the cell and
/// can read the value current at the moment it runs.
///
/// The event keeps its handlers in a slab and `invoke` walks them in slot
/// order; nothing here ever removes a handler, so slot order is the order in
/// which the handlers were added.
#[verifier::external_body]
#[verifier::reject_recursive_types(T)]
struct RawEvent<'a, T: Eq + Default> {
    inner: event_rs::Event<'a, ObservableProperty<'a, T>>,
}

impl<'a, T: Eq + Default> RawEvent<'a, T> {
    /// Relies on `event_rs::Event::new`: it returns an event with no handlers.
    #[verifier::external_body]
    fn new() -> Self {
        RawEvent { inner: event_rs::Event::new() }
    }

    /// Relies on `event_rs::Event::add`: it stores the handler after all
    /// handlers added earlier and never runs it during this call.  The handle
    /// that `add` returns is discarded, since nothing here removes handlers.
    ///
    /// The handler must accept every cell reference, because the event may
    /// later run it on any invocation context.
    #[verifier::external_body]
    fn add<F: Fn(&ObservableProperty<'a, T>) + 'a>(&mut self, handler: F)
        requires
            forall|context: &ObservableProperty<'a, T>| call_requires(handler, (context,)),
    {
        self.inner.add(handler);
    }

    /// Relies on `event_rs::Event::invoke`: it calls every handler once, in
    /// the order the handlers were added, passing `context` to each.  A panic
    /// raised by a handler propagates to the caller and skips the handlers
    /// after it.
    #[verifier::external_body]
    fn invoke(&self, context: &ObservableProperty<'a, T>) {
        self.inner.invoke(context);
    }
}

/// One notification channel of an observable cell: an ordered sequence of
/// listener callbacks, each taking a reference to the owning cell.
///
/// Listeners are invoked synchronously and in subscription order.  The
/// channel never filters, reorders or drops a listener.  Its model is the
/// number of listeners subscribed so far, [`PropertyEvent::len`].
///
/// Subscribing needs exclusive access to the channel, while a running
/// listener only holds a shared reference to the owning cell, so the listener
/// sequence cannot change while [`PropertyEvent::invoke`] is walking it.
#[verifier::reject_recursive_types(T)]
pub struct PropertyEvent<'a, T: Eq + Default> {
    raw: RawEvent<'a, T>,
    count: Ghost<nat>,
}

impl<'a, T: Eq + Default> PropertyEvent<'a, T> {
    /// The number of listeners subscribed to this channel.
    pub closed spec fn len(&self) -> nat {
        self.count@
    }

    /// Creates a channel with no listeners.
    pub fn new() -> (r: Self)
        ensures
            r.len() == 0,
    {
        PropertyEvent { raw: RawEvent::new(), count: Ghost(0nat) }
    }

    /// Subscribes `listener`: appends it after every listener subscribed
    /// earlier.  There is no uniqueness check, and the listener does not run
    /// during this call.
    pub fn add<F: Fn(&ObservableProperty<'a, T>) + 'a>(&mut self, listener: F)
        requires
            forall|context: &ObservableProperty<'a, T>| call_requires(listener, (context,)),
        ensures
            final(self).len() == old(self).len() + 1,
    {
        self.raw.add(listener);
        self.count = Ghost(self.count@ + 1);
    }

    /// Invokes every listener of this channel once, in subscription order,
    /// passing each a reference to `context`.  A panic raised by a listener
    /// propagates and skips the listeners after it.
    pub fn invoke(&self, context: &ObservableProperty<'a, T>) {
        self.raw.invoke(context);
    }
}

} // verus!
