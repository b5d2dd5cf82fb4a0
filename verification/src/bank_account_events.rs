//! Domain events of the bank-account aggregate.

use crate::atm::AtmId;
use crate::bank_account::{BankAccountId, EmailAddress};
use crate::bus::Event;
use vstd::prelude::*;

verus! {

/// Raised when an account is opened.
#[derive(Debug, Clone, PartialEq)]
pub struct AccountOpenedEvent {
    pub account_id: BankAccountId,
    pub email_address: EmailAddress,
}

/// Raised when a customer deposits money; `balance` is the balance after the
/// deposit.
#[derive(Debug, Clone, Copy, PartialEq)]
pub struct CustomerDepositedMoneyEvent {
    pub account_id: BankAccountId,
    pub amount: u64,
    pub balance: u64,
    pub atm_id: AtmId,
}

/// Raised when a customer withdraws cash; `balance` is the balance after the
/// withdrawal.
#[derive(Debug, Clone, Copy, PartialEq)]
pub struct CustomerWithdrewCashEvent {
    pub account_id: BankAccountId,
    pub amount: u64,
    pub balance: u64,
    pub atm_id: AtmId,
}

/// Raised when a customer writes a check; `balance` is the balance before
/// the check amount is taken out. The check number stays a primitive string
/// because an external service issues it.
#[derive(Debug, Clone, PartialEq)]
pub struct CustomerWroteCheckEvent {
    pub account_id: BankAccountId,
    pub check_number: String,
    pub amount: u64,
    pub balance: u64,
}

/// Any event of the bank-account aggregate.
#[derive(Debug, Clone, PartialEq)]
pub enum BankAccountEvent {
    AccountOpenedEvent(AccountOpenedEvent),
    CustomerDepositedMoneyEvent(CustomerDepositedMoneyEvent),
    CustomerWithdrewCashEvent(CustomerWithdrewCashEvent),
    CustomerWroteCheckEvent(CustomerWroteCheckEvent),
}


impl Event for AccountOpenedEvent {
    open spec fn tag() -> Seq<char> {
        "AccountOpenedEvent"@
    }

    fn event_type() -> (r: String) {
        "AccountOpenedEvent".to_owned()
    }
}

impl Event for CustomerDepositedMoneyEvent {
    open spec fn tag() -> Seq<char> {
        "CustomerDepositedMoneyEvent"@
    }

    fn event_type() -> (r: String) {
        "CustomerDepositedMoneyEvent".to_owned()
    }
}

impl Event for CustomerWithdrewCashEvent {
    open spec fn tag() -> Seq<char> {
        "CustomerWithdrewCashEvent"@
    }

    fn event_type() -> (r: String) {
        "CustomerWithdrewCashEvent".to_owned()
    }
}

impl Event for CustomerWroteCheckEvent {
    open spec fn tag() -> Seq<char> {
        "CustomerWroteCheckEvent"@
    }

    fn event_type() -> (r: String) {
        "CustomerWroteCheckEvent".to_owned()
    }
}

/// The event-type tag of a bank-account event: the tag of its variant's
/// event type.
pub open spec fn bank_account_event_tag(event: BankAccountEvent) -> Seq<char> {
    match event {
        BankAccountEvent::AccountOpenedEvent(_) => AccountOpenedEvent::tag(),
        BankAccountEvent::CustomerDepositedMoneyEvent(_) => CustomerDepositedMoneyEvent::tag(),
        BankAccountEvent::CustomerWithdrewCashEvent(_) => CustomerWithdrewCashEvent::tag(),
        BankAccountEvent::CustomerWroteCheckEvent(_) => CustomerWroteCheckEvent::tag(),
    }
}

} // verus!
