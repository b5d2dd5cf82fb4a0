//! The per-aggregate buffer of pending domain events.

use vstd::prelude::*;

verus! {

/// An ordered buffer of domain events raised during one mutation cycle.
///
/// The buffer is always a valid (possibly empty) sequence. `push` appends an
/// event; `take` drains the whole sequence and resets the buffer to empty, so
/// no event is ever returned by more than one `take`.
#[derive(Debug, Clone, PartialEq)]
pub struct DomainEventList<E> {
    events: Vec<E>,
}

impl<E> View for DomainEventList<E> {
    type V = Seq<E>;

    closed spec fn view(&self) -> Seq<E> {
        self.events@
    }
}

impl<E> DomainEventList<E> {
    /// Creates an empty buffer.
    pub fn new() -> (r: Self)
        ensures
            r@ == Seq::<E>::empty(),
    {
        Self { events: Vec::new() }
    }

    /// Appends one domain event at the end of the buffer.
    pub fn push(&mut self, event: E)
        ensures
            final(self)@ == old(self)@.push(event),
    {
        self.events.push(event);
    }

    /// Drains the buffer: returns every pending event, in insertion order,
    /// and leaves the buffer empty.
    pub fn take(&mut self) -> (r: Vec<E>)
        ensures
            r@ == old(self)@,
            final(self)@ == Seq::<E>::empty(),
    {
        let mut drained = Vec::new();
        core::mem::swap(&mut drained, &mut self.events);
        drained
    }
}

impl<E> Default for DomainEventList<E> {
    fn default() -> (r: Self)
        ensures
            r@ == Seq::<E>::empty(),
    {
        Self::new()
    }
}

/// What `push` leaves in a buffer holding `events`, as `push` promises it.
pub open spec fn spec_push<E>(events: Seq<E>, event: E) -> Seq<E> {
    events.push(event)
}

/// What `take` returns from a buffer holding `events`, paired with what it
/// leaves behind, as `take` promises it.
pub open spec fn spec_take<E>(events: Seq<E>) -> (Seq<E>, Seq<E>) {
    (events, Seq::<E>::empty())
}

/// `push` then `take` then `take` again: the first `take` drains exactly the
/// pushed events, and the second `take` returns an empty sequence, so no
/// event is duplicated across drains.
pub proof fn lemma_no_event_is_drained_twice<E>(events: Seq<E>, event: E)
    ensures
        ({
            let after_push = spec_push(events, event);
            let (first_drain, rest) = spec_take(after_push);
            let (second_drain, _) = spec_take(rest);
            &&& first_drain == events.push(event)
            &&& second_drain == Seq::<E>::empty()
        }),
{
}

} // verus!
