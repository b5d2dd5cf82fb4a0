//! Subscribers reacting to bank-account events, and the typed event bus
//! that routes those events.

use crate::atm;
use crate::atm::Atm;
use crate::bank_account_events::{
    bank_account_event_tag, AccountOpenedEvent, BankAccountEvent, CustomerDepositedMoneyEvent,
    CustomerWithdrewCashEvent, CustomerWroteCheckEvent,
};
use crate::bus::{bus_subscribers, EventBus};
use crate::error::{ApplicationError, DomainError};
use crate::repositories::{AtmRepository, Transaction};
use crate::subscribe::Subscribe;
use vstd::prelude::*;

verus! {

/// Announces an opened account to its holder. Sending the mail is the
/// surrounding application's concern, so handling the event has no effect
/// here and always succeeds.
pub struct SendOpenAccountMailHandler;

impl SendOpenAccountMailHandler {
    /// Creates the handler.
    pub fn new() -> Self {
        SendOpenAccountMailHandler
    }
}

impl Subscribe for SendOpenAccountMailHandler {
    type InputEvent = AccountOpenedEvent;

    type Output = Result<(), ApplicationError>;

    fn handle_event(&mut self, event: &AccountOpenedEvent) -> (r: Result<(), ApplicationError>)
        ensures
            r matches Ok(()),
    {
        Ok(())
    }
}

/// Reacts to a customer writing a check by notifying the external check
/// service. The call itself is the surrounding application's concern, so
/// handling the event has no effect here and always succeeds.
pub struct ExternalWroteCheckHandler;

impl ExternalWroteCheckHandler {
    /// Creates the handler.
    pub fn new() -> Self {
        ExternalWroteCheckHandler
    }
}

impl Subscribe for ExternalWroteCheckHandler {
    type InputEvent = CustomerWroteCheckEvent;

    type Output = Result<(), ApplicationError>;

    fn handle_event(&mut self, event: &CustomerWroteCheckEvent) -> (r: Result<
        (),
        ApplicationError,
    >)
        ensures
            r matches Ok(()),
    {
        Ok(())
    }
}

/// Charges the deposited cash into the ATM it passed through.
pub struct AtmDepositHandler<AR: AtmRepository> {
    pub repo: AR,
    pub pool: <AR::Transaction as Transaction>::Pool,
}

impl<AR: AtmRepository> AtmDepositHandler<AR> {
    /// Wires the handler to a repository and a transaction pool.
    pub fn new(repo: AR, pool: <AR::Transaction as Transaction>::Pool) -> (r: Self)
        ensures
            r.repo == repo,
            r.pool == pool,
    {
        Self { repo, pool }
    }
}

impl<AR: AtmRepository> Subscribe for AtmDepositHandler<AR> {
    type InputEvent = CustomerDepositedMoneyEvent;

    type Output = Result<(), ApplicationError>;

    /// On success the stored cash of the event's ATM rose by exactly the
    /// deposited amount. An unknown ATM fails with `RecordNotFound` and
    /// changes nothing; a sum beyond the cash type's range fails as an
    /// infrastructure error; on an infrastructure failure the store holds
    /// either the old records or, when only the commit failed, also the new
    /// cash amount.
    fn handle_event(&mut self, event: &CustomerDepositedMoneyEvent) -> (r: Result<
        (),
        ApplicationError,
    >)
        ensures
            ({
                let key = event.atm_id.spec_value();
                let stored0 = old(self).repo.stored();
                match r {
                    Ok(()) => {
                        &&& stored0.contains_key(key)
                        &&& stored0[key].total_cash + event.amount <= u64::MAX
                        &&& final(self).repo.stored() == stored0.insert(
                            key,
                            atm::Model {
                                total_cash: (stored0[key].total_cash + event.amount) as u64,
                                ..stored0[key]
                            },
                        )
                    },
                    Err(e) => match e {
                        ApplicationError::RecordNotFound(_) => {
                            &&& !stored0.contains_key(key)
                            &&& final(self).repo.stored() == stored0
                        },
                        ApplicationError::OtherInfraError(_) => final(self).repo.stored()
                            == stored0 || (stored0.contains_key(key) && stored0[key].total_cash
                            + event.amount <= u64::MAX && final(self).repo.stored()
                            == stored0.insert(
                            key,
                            atm::Model {
                                total_cash: (stored0[key].total_cash + event.amount) as u64,
                                ..stored0[key]
                            },
                        )),
                        _ => false,
                    },
                }
            }),
    {
        let transaction = match <AR::Transaction as Transaction>::begin(&self.pool) {
            Ok(t) => t,
            Err(e) => {
                return Err(ApplicationError::from(e));
            },
        };
        let mut atm = match self.repo.find_by_id(event.atm_id, Some(&transaction)) {
            Ok(a) => a,
            Err(e) => {
                return Err(ApplicationError::from(e));
            },
        };
        if event.amount > u64::MAX - atm.total_cash() {
            return Err(ApplicationError::OtherInfraError("atm cash amount overflow".to_owned()));
        }
        match atm.charge_cash(event.amount) {
            Ok(()) => {},
            Err(e) => {
                return Err(ApplicationError::from(e));
            },
        }
        match self.repo.edit(atm, Some(&transaction)) {
            Ok(()) => {},
            Err(e) => {
                return Err(ApplicationError::from(e));
            },
        }
        match transaction.commit() {
            Ok(()) => {},
            Err(e) => {
                return Err(ApplicationError::from(e));
            },
        }
        Ok(())
    }
}

/// Takes the withdrawn cash out of the ATM it was drawn from.
pub struct AtmWithdrawHandler<AR: AtmRepository> {
    pub repo: AR,
    pub pool: <AR::Transaction as Transaction>::Pool,
}

impl<AR: AtmRepository> AtmWithdrawHandler<AR> {
    /// Wires the handler to a repository and a transaction pool.
    pub fn new(repo: AR, pool: <AR::Transaction as Transaction>::Pool) -> (r: Self)
        ensures
            r.repo == repo,
            r.pool == pool,
    {
        Self { repo, pool }
    }
}

impl<AR: AtmRepository> Subscribe for AtmWithdrawHandler<AR> {
    type InputEvent = CustomerWithdrewCashEvent;

    type Output = Result<(), ApplicationError>;

    /// On success the stored cash of the event's ATM fell by exactly the
    /// withdrawn amount, which its reserve strictly covered. A withdrawal
    /// of the full reserve or more fails with `CannotWithdrawError` and
    /// changes nothing; an unknown ATM fails with `RecordNotFound` and
    /// changes nothing; on an infrastructure failure the store holds either
    /// the old records or, when only the commit failed, also the new cash
    /// amount.
    fn handle_event(&mut self, event: &CustomerWithdrewCashEvent) -> (r: Result<
        (),
        ApplicationError,
    >)
        ensures
            ({
                let key = event.atm_id.spec_value();
                let stored0 = old(self).repo.stored();
                match r {
                    Ok(()) => {
                        &&& stored0.contains_key(key)
                        &&& event.amount < stored0[key].total_cash
                        &&& final(self).repo.stored() == stored0.insert(
                            key,
                            atm::Model {
                                total_cash: (stored0[key].total_cash - event.amount) as u64,
                                ..stored0[key]
                            },
                        )
                    },
                    Err(e) => match e {
                        ApplicationError::DomainError(d) => {
                            &&& stored0.contains_key(key)
                            &&& event.amount >= stored0[key].total_cash
                            &&& d == DomainError::AtmError(
                                crate::error::AtmError::CannotWithdrawError {
                                    total_cash: stored0[key].total_cash,
                                    withdraw_amount: event.amount,
                                },
                            )
                            &&& final(self).repo.stored() == stored0
                        },
                        ApplicationError::RecordNotFound(_) => {
                            &&& !stored0.contains_key(key)
                            &&& final(self).repo.stored() == stored0
                        },
                        ApplicationError::OtherInfraError(_) => final(self).repo.stored()
                            == stored0 || (stored0.contains_key(key) && event.amount
                            < stored0[key].total_cash && final(self).repo.stored()
                            == stored0.insert(
                            key,
                            atm::Model {
                                total_cash: (stored0[key].total_cash - event.amount) as u64,
                                ..stored0[key]
                            },
                        )),
                        _ => false,
                    },
                }
            }),
    {
        let transaction = match <AR::Transaction as Transaction>::begin(&self.pool) {
            Ok(t) => t,
            Err(e) => {
                return Err(ApplicationError::from(e));
            },
        };
        let mut atm = match self.repo.find_by_id(event.atm_id, Some(&transaction)) {
            Ok(a) => a,
            Err(e) => {
                return Err(ApplicationError::from(e));
            },
        };
        match atm.withdraw(event.amount) {
            Ok(()) => {},
            Err(e) => {
                match transaction.rollback() {
                    _ => {},
                }
                return Err(ApplicationError::from(e));
            },
        }
        match self.repo.edit(atm, Some(&transaction)) {
            Ok(()) => {},
            Err(e) => {
                return Err(ApplicationError::from(e));
            },
        }
        match transaction.commit() {
            Ok(()) => {},
            Err(e) => {
                return Err(ApplicationError::from(e));
            },
        }
        Ok(())
    }
}

/// The event bus of the bank-account aggregate: one registry over all four
/// bank-account event types, holding subscriber handles of type `S`.
pub struct BankAccountEventBus<S> {
    pub event_bus: EventBus<S>,
}

impl<S> BankAccountEventBus<S> {
    /// Well-formedness of the underlying registry.
    pub open spec fn wf(&self) -> bool {
        self.event_bus.wf()
    }

    /// Wraps a registry.
    pub fn new(event_bus: EventBus<S>) -> (r: Self)
        ensures
            r.event_bus == event_bus,
    {
        Self { event_bus }
    }

    /// The subscribers a dispatch of `event` goes to: exactly the ones
    /// registered for the event's exact type, in registration order, and
    /// `None` if none ever was. Invoking them — concurrently, one task per
    /// returned handle — is the caller's business.
    pub fn dispatch_event(&self, event: &BankAccountEvent) -> (r: Option<&Vec<S>>)
        requires
            self.wf(),
        ensures
            self.event_bus@.contains_key(bank_account_event_tag(*event)) ==> (r matches Some(v)
                && v@ == self.event_bus@[bank_account_event_tag(*event)]),
            !self.event_bus@.contains_key(bank_account_event_tag(*event)) ==> r is None,
            ({
                let selected = match r {
                    Some(v) => v@,
                    None => Seq::<S>::empty(),
                };
                selected == bus_subscribers(self.event_bus@, bank_account_event_tag(*event))
            }),
    {
        match event {
            BankAccountEvent::AccountOpenedEvent(_) => self.event_bus.subscribers_of::<
                AccountOpenedEvent,
            >(),
            BankAccountEvent::CustomerDepositedMoneyEvent(_) => self.event_bus.subscribers_of::<
                CustomerDepositedMoneyEvent,
            >(),
            BankAccountEvent::CustomerWithdrewCashEvent(_) => self.event_bus.subscribers_of::<
                CustomerWithdrewCashEvent,
            >(),
            BankAccountEvent::CustomerWroteCheckEvent(_) => self.event_bus.subscribers_of::<
                CustomerWroteCheckEvent,
            >(),
        }
    }
}

} // verus!
