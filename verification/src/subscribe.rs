//! The contract every event subscriber satisfies.

use vstd::prelude::*;

verus! {

/// A consumer of one event type: given an event of its declared input
/// type, it produces an output. Each implementation states in its own
/// contract what handling an event does.
pub trait Subscribe: Sized {
    /// The one event type this subscriber consumes.
    type InputEvent;

    /// What handling an event produces, commonly a `Result`.
    type Output;

    /// Reacts to one event.
    fn handle_event(&mut self, event: &Self::InputEvent) -> Self::Output;
}

} // verus!
