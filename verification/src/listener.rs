//! What a dispatch hands to the host: the listener to invoke, if any, and the
//! native copies that nobody will receive.

use vstd::prelude::*;
use crate::engine::EngineCall;

verus! {

/// Names one handler that the application registered with the host. The crate
/// keeps the name; the host keeps the code behind it.
pub type ListenerId = u64;

/// One listener call that the host must make.
#[derive(Debug)]
pub struct Invocation<E> {
    /// The handler to call.
    pub listener: ListenerId,
    /// The identity of the managed object that the event is about.
    pub target: usize,
    /// The event, converted to safe values that the handler owns.
    pub event: E,
}

/// The outcome of dispatching one event.
#[derive(Debug)]
pub struct Dispatch<E> {
    /// The listener call to make; none if the event was dropped.
    pub invocation: Option<Invocation<E>>,
    /// Requests that give back the native copies that came with a dropped event.
    pub discard: Vec<EngineCall>,
}

impl<E> Dispatch<E> {
    /// The event reaches this listener, and nothing is thrown away.
    pub open spec fn delivers(self, listener: ListenerId, target: usize, event: E) -> bool {
        &&& self.invocation == Some(Invocation { listener, target, event })
        &&& self.discard@ == Seq::<EngineCall>::empty()
    }

    /// The event reaches no listener, and these requests clean up after it.
    pub open spec fn drops(self, discard: Seq<EngineCall>) -> bool {
        &&& self.invocation is None
        &&& self.discard@ == discard
    }

    /// A dispatch that invokes a listener.
    pub fn deliver(listener: ListenerId, target: usize, event: E) -> (d: Dispatch<E>)
        ensures
            d.delivers(listener, target, event),
    {
        Dispatch { invocation: Some(Invocation { listener, target, event }), discard: Vec::new() }
    }

    /// A dispatch that invokes nothing.
    pub fn dropped(discard: Vec<EngineCall>) -> (d: Dispatch<E>)
        ensures
            d.drops(discard@),
    {
        Dispatch { invocation: None, discard }
    }
}

} // verus!
