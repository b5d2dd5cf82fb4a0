//! Error taxonomy: domain errors, infrastructure errors, and the
//! application-level error surfaced to callers.

use vstd::prelude::*;

verus! {

/// A business-rule violation in the bank-account aggregate.
///
/// Amounts are in minor units; `exceed_balance` is kept wide so that it can
/// report a sum that does not fit the balance type.
#[derive(Debug, Clone, PartialEq, Eq)]
pub enum BankAccountError {
    /// Depositing `amount` would raise the balance to `exceed_balance`,
    /// which is above `limit`.
    DepositExceedLimitError { limit: u64, amount: u64, exceed_balance: u128 },
    /// Withdrawing `amount` from `balance` is not covered.
    WithdrawExceedBalanceError { amount: u64, balance: u64 },
    /// Writing a check over `amount` from `balance` is not covered.
    CheckExceedBalanceError { amount: u64, balance: u64 },
}

/// A business-rule violation in the ATM aggregate.
#[derive(Debug, Clone, PartialEq, Eq)]
pub enum AtmError {
    /// The ATM holds less cash than the requested withdrawal.
    CannotWithdrawError { total_cash: u64, withdraw_amount: u64 },
}

/// An error of the domain layer.
#[derive(Debug, Clone, PartialEq, Eq)]
pub enum DomainError {
    /// A primitive value could not be parsed into a domain type.
    DomainParseError(String),
    /// An error of the bank-account aggregate.
    BankAccountError(BankAccountError),
    /// An error of the ATM aggregate.
    AtmError(AtmError),
}

/// An error of the infrastructure layer (transactions, repositories).
#[derive(Debug, Clone, PartialEq, Eq)]
pub enum InfraError {
    /// An error forwarded from the domain layer.
    DomainError(DomainError),
    /// A looked-up record does not exist.
    RecordNotFoundError(String),
    /// Any other database or connection error.
    OtherDbError(String),
}

/// The error surfaced to callers of the application layer.
///
/// Callers can tell a business-rule rejection (`DomainError`) from an
/// infrastructure failure (`RecordNotFound`, `OtherInfraError`) and from
/// transport-level problems (`JsonRejectionError`, `SerdeError`,
/// `FetchError`, raised only by the surrounding adapters).
#[derive(Debug, Clone, PartialEq, Eq)]
pub enum ApplicationError {
    /// A business-rule violation, recovered locally and surfaced as-is.
    DomainError(DomainError),
    /// A looked-up record does not exist.
    RecordNotFound(String),
    /// Any other infrastructure failure.
    OtherInfraError(String),
    /// A malformed request body, raised by the transport adapter.
    JsonRejectionError(String),
    /// A serialization failure, raised by the transport adapter.
    SerdeError(String),
    /// A failed outgoing request, raised by the transport adapter.
    FetchError(String),
}

impl From<DomainError> for ApplicationError {
    fn from(value: DomainError) -> (r: Self) {
        ApplicationError::DomainError(value)
    }
}

impl vstd::std_specs::convert::FromSpecImpl<DomainError> for ApplicationError {
    open spec fn obeys_from_spec() -> bool {
        true
    }

    open spec fn from_spec(value: DomainError) -> Self {
        ApplicationError::DomainError(value)
    }
}

impl From<InfraError> for ApplicationError {
    fn from(value: InfraError) -> (r: Self) {
        match value {
            InfraError::DomainError(e) => ApplicationError::DomainError(e),
            InfraError::RecordNotFoundError(message) => ApplicationError::RecordNotFound(message),
            InfraError::OtherDbError(message) => ApplicationError::OtherInfraError(message),
        }
    }
}

impl vstd::std_specs::convert::FromSpecImpl<InfraError> for ApplicationError {
    open spec fn obeys_from_spec() -> bool {
        true
    }

    open spec fn from_spec(value: InfraError) -> Self {
        match value {
            InfraError::DomainError(e) => ApplicationError::DomainError(e),
            InfraError::RecordNotFoundError(message) => ApplicationError::RecordNotFound(message),
            InfraError::OtherDbError(message) => ApplicationError::OtherInfraError(message),
        }
    }
}

} // verus!
