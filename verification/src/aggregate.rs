//! The contract every aggregate satisfies.

use crate::event_list::DomainEventList;
use vstd::prelude::*;

verus! {

/// An aggregate: an entity with an identity and a buffer of pending domain
/// events. Each implementation states in its own contracts how the buffer
/// relates to the rest of its state.
pub trait Aggregate: Sized {
    /// The domain events this aggregate raises.
    type Event;

    /// The identifier type of this aggregate.
    type IntoId;

    /// The identifier of this aggregate.
    fn id(&self) -> Self::IntoId;

    /// The pending domain events, as a shared reference.
    fn domain_events(&self) -> &DomainEventList<Self::Event>;

    /// The pending domain events, as a mutable reference.
    fn domain_events_mut(&mut self) -> &mut DomainEventList<Self::Event>;
}

} // verus!
