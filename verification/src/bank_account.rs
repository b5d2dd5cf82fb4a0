//! The bank-account aggregate.

mod email_address;
mod name;

pub use email_address::{email_ok, EmailAddress};
pub use name::{AccountName, AccountNameView};

use crate::aggregate::Aggregate;
use crate::bank_account_events::{
    AccountOpenedEvent, BankAccountEvent, CustomerWroteCheckEvent,
};
use crate::error::{BankAccountError, DomainError};
use crate::event_list::DomainEventList;
use crate::id::Id;
use vstd::prelude::*;

verus! {

/// Phantom tag for bank-account identifiers.
#[derive(Debug, Clone, Copy, PartialEq, Eq, Structural)]
pub struct BankAccountIdType;

/// The identifier of a bank-account aggregate.
pub type BankAccountId = Id<BankAccountIdType>;

/// The spec-level value of a [`BankAccount`].
pub struct BankAccountView {
    pub id: BankAccountId,
    pub opened: bool,
    pub balance: u64,
    pub email_address: EmailAddress,
    pub account_name: AccountName,
    pub events: Seq<BankAccountEvent>,
}

impl BankAccountView {
    /// The persisted form of this state: everything but the pending events.
    pub open spec fn as_model(&self) -> Model {
        Model {
            id: self.id,
            opened: self.opened,
            balance: self.balance,
            email_address: self.email_address,
            account_name: self.account_name,
        }
    }
}

/// The persisted form of a [`BankAccount`]: its state without the pending
/// events, which storage never keeps.
#[derive(Debug)]
pub struct Model {
    pub id: BankAccountId,
    pub opened: bool,
    pub balance: u64,
    pub email_address: EmailAddress,
    pub account_name: AccountName,
}

impl Clone for Model {
    fn clone(&self) -> (r: Self)
        ensures
            r == *self,
    {
        Self {
            id: self.id,
            opened: self.opened,
            balance: self.balance,
            email_address: self.email_address.clone(),
            account_name: self.account_name.clone(),
        }
    }
}

/// A bank account: an aggregate with a balance, an owner name and address,
/// and the buffer of events raised by its operations.
#[derive(Debug, Clone, PartialEq)]
pub struct BankAccount {
    id: BankAccountId,
    opened: bool,
    balance: u64,
    email_address: EmailAddress,
    account_name: AccountName,
    events_list: DomainEventList<BankAccountEvent>,
}

impl View for BankAccount {
    type V = BankAccountView;

    closed spec fn view(&self) -> BankAccountView {
        BankAccountView {
            id: self.id,
            opened: self.opened,
            balance: self.balance,
            email_address: self.email_address,
            account_name: self.account_name,
            events: self.events_list@,
        }
    }
}

impl BankAccount {
    /// Builds a fresh, not yet opened account with balance zero, a generated
    /// id, and no pending events.
    pub fn from_domains(email_address: EmailAddress, account_name: AccountName) -> (r: Self)
        ensures
            r@.opened == false,
            r@.balance == 0,
            r@.email_address == email_address,
            r@.account_name == account_name,
            r@.events == Seq::<BankAccountEvent>::empty(),
    {
        BankAccount {
            id: BankAccountId::generate(),
            opened: false,
            balance: 0,
            email_address,
            account_name,
            events_list: DomainEventList::new(),
        }
    }

    /// Builds a fresh account from primitive values; fails exactly when the
    /// e-mail address is not well-formed.
    pub fn from_primitives(email_address: String, first_name: String, last_name: String) -> (r:
        Result<Self, DomainError>)
        ensures
            email_ok(email_address@) ==> (r matches Ok(a) && a@.opened == false && a@.balance == 0
                && a@.email_address@ == email_address@ && a@.account_name@.first_name
                == first_name@ && a@.account_name@.last_name == last_name@ && a@.events
                == Seq::<BankAccountEvent>::empty()),
            !email_ok(email_address@) ==> (r matches Err(e) && e matches
                DomainError::DomainParseError(_)),
    {
        let email_address = EmailAddress::try_from(email_address)?;
        let account_name = match AccountName::from_primitives(first_name, last_name) {
            Ok(n) => n,
            Err(e) => {
                return Err(e);
            },
        };
        Ok(BankAccount {
            id: BankAccountId::generate(),
            opened: false,
            balance: 0,
            email_address,
            account_name,
            events_list: DomainEventList::new(),
        })
    }

    /// Rebuilds an account from its persisted form, with no pending events.
    pub fn from_model(model: Model) -> (r: Self)
        ensures
            r@.as_model() == model,
            r@.events == Seq::<BankAccountEvent>::empty(),
    {
        BankAccount {
            id: model.id,
            opened: model.opened,
            balance: model.balance,
            email_address: model.email_address,
            account_name: model.account_name,
            events_list: DomainEventList::new(),
        }
    }

    /// The persisted form of this account.
    pub fn to_model(&self) -> (r: Model)
        ensures
            r == self@.as_model(),
    {
        Model {
            id: self.id,
            opened: self.opened,
            balance: self.balance,
            email_address: self.email_address.clone(),
            account_name: self.account_name.clone(),
        }
    }

    /// The identifier of this account.
    pub fn id(&self) -> (r: BankAccountId)
        ensures
            r == self@.id,
    {
        self.id
    }

    /// Whether the account has been opened for use.
    pub fn opened(&self) -> (r: bool)
        ensures
            r == self@.opened,
    {
        self.opened
    }

    /// The current balance, in minor units.
    pub fn balance(&self) -> (r: u64)
        ensures
            r == self@.balance,
    {
        self.balance
    }

    /// The e-mail address of the account holder.
    pub fn email_address(&self) -> (r: &EmailAddress)
        ensures
            *r == self@.email_address,
    {
        &self.email_address
    }

    /// The name of the account holder.
    pub fn account_name(&self) -> (r: &AccountName)
        ensures
            *r == self@.account_name,
    {
        &self.account_name
    }

    /// Appends a domain event to the pending buffer.
    pub fn push_event(&mut self, event: BankAccountEvent)
        ensures
            final(self)@ == (BankAccountView {
                events: old(self)@.events.push(event),
                ..old(self)@
            }),
    {
        self.events_list.push(event);
    }

    /// Drains the pending events: returns them all, in the order they were
    /// raised, and leaves the buffer empty.
    pub fn take_events(&mut self) -> (r: Vec<BankAccountEvent>)
        ensures
            r@ == old(self)@.events,
            final(self)@ == (BankAccountView {
                events: Seq::<BankAccountEvent>::empty(),
                ..old(self)@
            }),
    {
        self.events_list.take()
    }

    /// Opens the account for use and raises an [`AccountOpenedEvent`]
    /// carrying the account's e-mail address.
    pub fn open_account(&mut self)
        ensures
            final(self)@ == (BankAccountView {
                opened: true,
                events: old(self)@.events.push(
                    BankAccountEvent::AccountOpenedEvent(
                        AccountOpenedEvent {
                            account_id: old(self)@.id,
                            email_address: old(self)@.email_address,
                        },
                    ),
                ),
                ..old(self)@
            }),
    {
        let event = AccountOpenedEvent {
            account_id: self.id,
            email_address: self.email_address.clone(),
        };
        self.opened = true;
        self.domain_events_mut().push(BankAccountEvent::AccountOpenedEvent(event));
    }

    /// Deposits `amount` if that keeps the balance at or below `limit`;
    /// otherwise the deposit is rejected and the account left unchanged.
    /// Raises no event either way: the command handler appends the deposit
    /// event after a successful deposit.
    pub fn deposit_money(&mut self, amount: u64, limit: u64) -> (r: Result<(), DomainError>)
        ensures
            old(self)@.balance + amount <= limit ==> (r matches Ok(()) && final(self)@ == (
            BankAccountView { balance: (old(self)@.balance + amount) as u64, ..old(self)@ })),
            old(self)@.balance + amount > limit ==> (r matches Err(e) && e
                == DomainError::BankAccountError(
                BankAccountError::DepositExceedLimitError {
                    limit,
                    amount,
                    exceed_balance: (old(self)@.balance + amount) as u128,
                },
            ) && final(self)@ == old(self)@),
    {
        let sum: u128 = self.balance as u128 + amount as u128;
        if sum > limit as u128 {
            Err(DomainError::BankAccountError(BankAccountError::DepositExceedLimitError {
                limit,
                amount,
                exceed_balance: sum,
            }))
        } else {
            self.balance = sum as u64;
            Ok(())
        }
    }

    /// Withdraws `amount` if it is strictly covered by the balance;
    /// a withdrawal of the full balance or more is rejected and the account
    /// left unchanged. Raises no event either way: the command handler
    /// appends the withdrawal event after a successful withdrawal.
    pub fn withdraw_money(&mut self, amount: u64) -> (r: Result<(), DomainError>)
        ensures
            amount < old(self)@.balance ==> (r matches Ok(()) && final(self)@ == (BankAccountView {
                balance: (old(self)@.balance - amount) as u64,
                ..old(self)@
            })),
            amount >= old(self)@.balance ==> (r matches Err(e) && e
                == DomainError::BankAccountError(
                BankAccountError::WithdrawExceedBalanceError {
                    amount,
                    balance: old(self)@.balance,
                },
            ) && final(self)@ == old(self)@),
    {
        if amount < self.balance {
            self.balance = self.balance - amount;
            Ok(())
        } else {
            Err(DomainError::BankAccountError(BankAccountError::WithdrawExceedBalanceError {
                amount,
                balance: self.balance,
            }))
        }
    }

    /// Writes a check over `amount` if it is strictly covered by the
    /// balance: the balance drops by `amount` and a
    /// [`CustomerWroteCheckEvent`] is raised, carrying the balance as it
    /// stood before the check. A check over the full balance or more is
    /// rejected and the account left unchanged, with no event.
    pub fn write_check(&mut self, amount: u64, check_number: String) -> (r: Result<
        (),
        DomainError,
    >)
        ensures
            amount < old(self)@.balance ==> (r matches Ok(()) && final(self)@ == (BankAccountView {
                balance: (old(self)@.balance - amount) as u64,
                events: old(self)@.events.push(
                    BankAccountEvent::CustomerWroteCheckEvent(
                        CustomerWroteCheckEvent {
                            account_id: old(self)@.id,
                            check_number,
                            amount,
                            balance: old(self)@.balance,
                        },
                    ),
                ),
                ..old(self)@
            })),
            amount >= old(self)@.balance ==> (r matches Err(e) && e
                == DomainError::BankAccountError(
                BankAccountError::CheckExceedBalanceError { amount, balance: old(self)@.balance },
            ) && final(self)@ == old(self)@),
    {
        if amount < self.balance {
            let event = CustomerWroteCheckEvent {
                account_id: self.id,
                check_number,
                amount,
                balance: self.balance,
            };
            self.balance = self.balance - amount;
            self.domain_events_mut().push(BankAccountEvent::CustomerWroteCheckEvent(event));
            Ok(())
        } else {
            Err(DomainError::BankAccountError(BankAccountError::CheckExceedBalanceError {
                amount,
                balance: self.balance,
            }))
        }
    }
}

impl Aggregate for BankAccount {
    type Event = BankAccountEvent;

    type IntoId = BankAccountId;

    fn id(&self) -> (r: BankAccountId)
        ensures
            r == self@.id,
    {
        self.id
    }

    fn domain_events(&self) -> (r: &DomainEventList<BankAccountEvent>)
        ensures
            r@ == self@.events,
    {
        &self.events_list
    }

    fn domain_events_mut(&mut self) -> (r: &mut DomainEventList<BankAccountEvent>)
        ensures
            (*r)@ == old(self)@.events,
            final(self)@ == (BankAccountView { events: (*final(r))@, ..old(self)@ }),
    {
        &mut self.events_list
    }
}

} // verus!
