//! The ATM aggregate: a cash machine with a location and a cash reserve.

mod atm_location;

pub use atm_location::AtmLocation;

use crate::aggregate::Aggregate;
use crate::atm_events::AtmEvents;
use crate::error::{AtmError, DomainError};
use crate::event_list::DomainEventList;
use crate::id::Id;
use vstd::prelude::*;

verus! {

/// Phantom tag for ATM identifiers.
#[derive(Debug, Clone, Copy, PartialEq, Eq, Structural)]
pub struct AtmIdType;

/// The identifier of an ATM aggregate.
pub type AtmId = Id<AtmIdType>;

/// The spec-level value of an [`Atm`].
pub struct AtmView {
    pub id: AtmId,
    pub location: AtmLocation,
    pub total_cash: u64,
    pub events: Seq<AtmEvents>,
}

impl AtmView {
    /// The persisted form of this state: everything but the pending events.
    pub open spec fn as_model(&self) -> Model {
        Model { id: self.id, location: self.location, total_cash: self.total_cash }
    }
}

/// The persisted form of an [`Atm`]: its state without the pending events,
/// which storage never keeps.
#[derive(Debug)]
pub struct Model {
    pub id: AtmId,
    pub location: AtmLocation,
    pub total_cash: u64,
}

impl Clone for Model {
    fn clone(&self) -> (r: Self)
        ensures
            r == *self,
    {
        Self { id: self.id, location: self.location.clone(), total_cash: self.total_cash }
    }
}

/// An ATM: an aggregate holding a cash reserve at a location.
#[derive(Debug, Clone, PartialEq)]
pub struct Atm {
    id: AtmId,
    location: AtmLocation,
    total_cash: u64,
    events_list: DomainEventList<AtmEvents>,
}

impl View for Atm {
    type V = AtmView;

    closed spec fn view(&self) -> AtmView {
        AtmView {
            id: self.id,
            location: self.location,
            total_cash: self.total_cash,
            events: self.events_list@,
        }
    }
}

impl Atm {
    /// Builds a fresh ATM from its domain values, with a generated id and no
    /// pending events.
    pub fn from_domains(location: AtmLocation, total_cash: u64) -> (r: Self)
        ensures
            r@.location == location,
            r@.total_cash == total_cash,
            r@.events == Seq::<AtmEvents>::empty(),
    {
        Atm {
            id: AtmId::generate(),
            location,
            total_cash,
            events_list: DomainEventList::new(),
        }
    }

    /// Builds a fresh ATM from primitive values.
    pub fn from_primitives(location: String, total_cash: u64) -> (r: Result<Self, DomainError>)
        ensures
            r matches Ok(atm) && atm@.location@ == location@ && atm@.total_cash == total_cash
                && atm@.events == Seq::<AtmEvents>::empty(),
    {
        Ok(Atm {
            id: AtmId::generate(),
            location: AtmLocation::new(location),
            total_cash,
            events_list: DomainEventList::new(),
        })
    }

    /// Rebuilds an ATM from its persisted form, with no pending events.
    pub fn from_model(model: Model) -> (r: Self)
        ensures
            r@.as_model() == model,
            r@.events == Seq::<AtmEvents>::empty(),
    {
        Atm {
            id: model.id,
            location: model.location,
            total_cash: model.total_cash,
            events_list: DomainEventList::new(),
        }
    }

    /// The persisted form of this ATM.
    pub fn to_model(&self) -> (r: Model)
        ensures
            r == self@.as_model(),
    {
        Model { id: self.id, location: self.location.clone(), total_cash: self.total_cash }
    }

    /// The identifier of this ATM.
    pub fn id(&self) -> (r: AtmId)
        ensures
            r == self@.id,
    {
        self.id
    }

    /// The location of this ATM.
    pub fn location(&self) -> (r: &AtmLocation)
        ensures
            *r == self@.location,
    {
        &self.location
    }

    /// The cash currently held by this ATM.
    pub fn total_cash(&self) -> (r: u64)
        ensures
            r == self@.total_cash,
    {
        self.total_cash
    }

    /// Drains the pending events: returns them all, in the order they were
    /// raised, and leaves the buffer empty.
    pub fn take_events(&mut self) -> (r: Vec<AtmEvents>)
        ensures
            r@ == old(self)@.events,
            final(self)@ == (AtmView { events: Seq::<AtmEvents>::empty(), ..old(self)@ }),
    {
        self.events_list.take()
    }

    /// Charges cash into the ATM. Always succeeds.
    pub fn charge_cash(&mut self, amount: u64) -> (r: Result<(), DomainError>)
        requires
            old(self)@.total_cash + amount <= u64::MAX,
        ensures
            r matches Ok(()),
            final(self)@ == (AtmView {
                total_cash: (old(self)@.total_cash + amount) as u64,
                ..old(self)@
            }),
    {
        self.total_cash = self.total_cash + amount;
        Ok(())
    }

    /// Withdraws cash from the ATM. The withdrawal is rejected, and the
    /// reserve left unchanged, unless the requested amount is strictly less
    /// than the cash held.
    pub fn withdraw(&mut self, amount: u64) -> (r: Result<(), DomainError>)
        ensures
            amount < old(self)@.total_cash ==> (r matches Ok(()) && final(self)@ == (AtmView {
                total_cash: (old(self)@.total_cash - amount) as u64,
                ..old(self)@
            })),
            amount >= old(self)@.total_cash ==> (r matches Err(e) && e == DomainError::AtmError(
                AtmError::CannotWithdrawError {
                    total_cash: old(self)@.total_cash,
                    withdraw_amount: amount,
                },
            ) && final(self)@ == old(self)@),
    {
        if amount < self.total_cash {
            self.total_cash = self.total_cash - amount;
            Ok(())
        } else {
            Err(DomainError::AtmError(AtmError::CannotWithdrawError {
                total_cash: self.total_cash,
                withdraw_amount: amount,
            }))
        }
    }
}

impl Aggregate for Atm {
    type Event = AtmEvents;

    type IntoId = AtmId;

    fn id(&self) -> (r: AtmId)
        ensures
            r == self@.id,
    {
        self.id
    }

    fn domain_events(&self) -> (r: &DomainEventList<AtmEvents>)
        ensures
            r@ == self@.events,
    {
        &self.events_list
    }

    fn domain_events_mut(&mut self) -> (r: &mut DomainEventList<AtmEvents>)
        ensures
            (*r)@ == old(self)@.events,
            final(self)@ == (AtmView { events: (*final(r))@, ..old(self)@ }),
    {
        &mut self.events_list
    }
}

} // verus!
