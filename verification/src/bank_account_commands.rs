//! Commands of the bank-account aggregate.

use crate::atm::AtmId;
use crate::bank_account::{AccountName, BankAccountId, EmailAddress};
use crate::id::CommandId;
use vstd::prelude::*;

verus! {

/// Open a new account.
#[derive(Debug, Clone)]
pub struct OpenAccountCommand {
    pub account_name: AccountName,
    pub email_address: EmailAddress,
}

/// Deposit money into an account through an ATM.
#[derive(Debug, Clone, Copy)]
pub struct DepositMoneyCommand {
    pub account_id: BankAccountId,
    pub amount: u64,
    pub atm_id: AtmId,
}

/// Withdraw money from an account through an ATM.
#[derive(Debug, Clone, Copy)]
pub struct WithdrawMoneyCommand {
    pub account_id: BankAccountId,
    pub amount: u64,
    pub atm_id: AtmId,
}

/// Write a check against an account. The check number stays a primitive
/// string because an external service issues it.
#[derive(Debug, Clone)]
pub struct WriteCheckCommand {
    pub account_id: BankAccountId,
    pub amount: u64,
    pub check_number: String,
}

/// Open a new account, borrowing its values: the serialization-side mirror
/// of [`OpenAccountCommand`].
#[derive(Debug, Clone)]
pub struct OpenAccountRefCommand<'a> {
    pub account_name: &'a AccountName,
    pub email_address: &'a EmailAddress,
}

/// Write a check, borrowing the check number: the serialization-side mirror
/// of [`WriteCheckCommand`].
#[derive(Debug, Clone)]
pub struct WriteCheckRefCommand<'a> {
    pub account_id: BankAccountId,
    pub amount: u64,
    pub check_number: &'a String,
}

/// Any command of the bank-account aggregate, tagged with the caller's
/// command identifier.
#[derive(Debug, Clone)]
pub enum BankAccountCommand {
    OpenAccountCommand(OpenAccountCommand, CommandId),
    DepositMoneyCommand(DepositMoneyCommand, CommandId),
    WithdrawMoneyCommand(WithdrawMoneyCommand, CommandId),
    WriteCheckCommand(WriteCheckCommand, CommandId),
}

impl BankAccountCommand {
    /// The command identifier this command was tagged with.
    pub open spec fn spec_id(&self) -> CommandId {
        match *self {
            BankAccountCommand::OpenAccountCommand(_, id) => id,
            BankAccountCommand::DepositMoneyCommand(_, id) => id,
            BankAccountCommand::WithdrawMoneyCommand(_, id) => id,
            BankAccountCommand::WriteCheckCommand(_, id) => id,
        }
    }

    /// The command identifier this command was tagged with.
    pub fn id(&self) -> (r: CommandId)
        ensures
            r == self.spec_id(),
    {
        match self {
            BankAccountCommand::OpenAccountCommand(_, id) => *id,
            BankAccountCommand::DepositMoneyCommand(_, id) => *id,
            BankAccountCommand::WithdrawMoneyCommand(_, id) => *id,
            BankAccountCommand::WriteCheckCommand(_, id) => *id,
        }
    }
}

/// Any borrowed bank-account command: the serialization-side mirror of
/// [`BankAccountCommand`].
#[derive(Debug, Clone)]
pub enum BankAccountRefCommand<'a> {
    OpenAccountCommand(OpenAccountRefCommand<'a>, CommandId),
    DepositMoneyCommand(DepositMoneyCommand, CommandId),
    WithdrawMoneyCommand(WithdrawMoneyCommand, CommandId),
    WriteCheckCommand(WriteCheckRefCommand<'a>, CommandId),
}

} // verus!
