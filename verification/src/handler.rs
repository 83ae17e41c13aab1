//! The application's handler.

use vstd::prelude::*;

use crate::event::Event;

verus! {

/// The application's handler, with what it is given besides each event.
pub struct EventLoopHandler<F, L> {
    pub handler: F,
    pub event_loop: L,
}

impl<F, L> EventLoopHandler<F, L> {
    /// Calls the handler with `event` and the event loop.
    pub fn handle_event<P>(&mut self, event: Event<P>) where F: FnMut(Event<P>, &L)
        requires
            call_requires(old(self).handler, (event, &old(self).event_loop)),
        ensures
            call_ensures(old(self).handler, (event, &old(self).event_loop), ()),
            final(self).event_loop == old(self).event_loop,
    {
        (self.handler)(event, &self.event_loop)
    }
}

} // verus!
