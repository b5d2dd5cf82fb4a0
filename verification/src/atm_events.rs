//! Domain events of the ATM aggregate.

use vstd::prelude::*;

verus! {

/// The events an ATM can raise. ATMs currently raise none: registering an
/// ATM is not announced to subscribers, so no operation ever constructs a
/// value of this type; the one variant only keeps the type inhabited for the
/// event buffer.
#[derive(Debug, Clone, PartialEq, Eq)]
pub enum AtmEvents {
    NoEvent,
}

} // verus!
