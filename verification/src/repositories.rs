//! The transaction and repository ports the orchestration consumes.
//!
//! The concrete database implementations are external collaborators; these
//! traits state the contract an implementation owes the orchestration. An
//! in-memory implementation that satisfies them stands in `mock_infra`.

use crate::atm;
use crate::atm::{Atm, AtmId};
use crate::bank_account;
use crate::bank_account::{BankAccount, BankAccountId};
use crate::error::InfraError;
use vstd::prelude::*;

verus! {

/// A unit-of-work boundary around persistence operations. Transactions do
/// not nest; one is consumed by `commit` or `rollback`. A transaction
/// failure is an infrastructure failure: never a domain error, never a
/// missing record.
pub trait Transaction: Sized {
    /// The resource pool transactions are drawn from.
    type Pool;

    /// Acquires a fresh transaction from the pool.
    fn begin(pool: &Self::Pool) -> (r: Result<Self, InfraError>)
        ensures
            r matches Err(e) ==> e matches InfraError::OtherDbError(_),
    ;

    /// Commits the transaction, making its writes durable.
    fn commit(self) -> (r: Result<(), InfraError>)
        ensures
            r matches Err(e) ==> e matches InfraError::OtherDbError(_),
    ;

    /// Rolls the transaction back, discarding its writes.
    fn rollback(self) -> (r: Result<(), InfraError>)
        ensures
            r matches Err(e) ==> e matches InfraError::OtherDbError(_),
    ;
}

/// The persistence port for bank accounts, specified over `stored`: the
/// records on storage, keyed by the raw account id.
///
/// A repository never fails with a domain error; `save`, `edit` and `remove`
/// leave storage unchanged when they fail, and `find_by_id` reports
/// `RecordNotFoundError` only for an id that has no record.
pub trait BankAccountRepository: Sized {
    /// The transaction type this repository takes part in.
    type Transaction: Transaction;

    /// The records on storage, keyed by the raw account id.
    spec fn stored(&self) -> Map<u128, bank_account::Model>;

    /// Inserts the aggregate's persisted form.
    fn save(&mut self, aggregate: BankAccount, transaction: Option<&Self::Transaction>) -> (r:
        Result<(), InfraError>)
        ensures
            r matches Ok(()) ==> final(self).stored() == old(self).stored().insert(
                aggregate@.id.spec_value(),
                aggregate@.as_model(),
            ),
            r matches Err(e) ==> final(self).stored() == old(self).stored() && !(e matches
            InfraError::DomainError(_)) && !(e matches InfraError::RecordNotFoundError(_)),
    ;

    /// Replaces the aggregate's persisted form.
    fn edit(&mut self, aggregate: BankAccount, transaction: Option<&Self::Transaction>) -> (r:
        Result<(), InfraError>)
        ensures
            r matches Ok(()) ==> final(self).stored() == old(self).stored().insert(
                aggregate@.id.spec_value(),
                aggregate@.as_model(),
            ),
            r matches Err(e) ==> final(self).stored() == old(self).stored() && !(e matches
            InfraError::DomainError(_)) && ((e matches InfraError::RecordNotFoundError(_))
                ==> !old(self).stored().contains_key(aggregate@.id.spec_value())),
    ;

    /// Loads the aggregate stored under `id`, with an empty event buffer.
    fn find_by_id(&self, id: BankAccountId, transaction: Option<&Self::Transaction>) -> (r: Result<
        BankAccount,
        InfraError,
    >)
        ensures
            r matches Ok(a) ==> self.stored().contains_key(id.spec_value()) && a@.as_model()
                == self.stored()[id.spec_value()] && a@.id == id && a@.events
                == Seq::<crate::bank_account_events::BankAccountEvent>::empty(),
            r matches Err(e) ==> !(e matches InfraError::DomainError(_)) && ((e matches
            InfraError::RecordNotFoundError(_)) ==> !self.stored().contains_key(id.spec_value())),
    ;

    /// Deletes the record stored under `id`.
    fn remove(&mut self, id: BankAccountId, transaction: Option<&Self::Transaction>) -> (r: Result<
        (),
        InfraError,
    >)
        ensures
            r matches Ok(()) ==> final(self).stored() == old(self).stored().remove(
                id.spec_value(),
            ),
            r matches Err(e) ==> final(self).stored() == old(self).stored() && !(e matches
            InfraError::DomainError(_)),
    ;
}

/// The persistence port for ATMs; the same contract as the bank-account
/// port, over ATM records.
pub trait AtmRepository: Sized {
    /// The transaction type this repository takes part in.
    type Transaction: Transaction;

    /// The records on storage, keyed by the raw ATM id.
    spec fn stored(&self) -> Map<u128, atm::Model>;

    /// Inserts the aggregate's persisted form.
    fn save(&mut self, aggregate: Atm, transaction: Option<&Self::Transaction>) -> (r: Result<
        (),
        InfraError,
    >)
        ensures
            r matches Ok(()) ==> final(self).stored() == old(self).stored().insert(
                aggregate@.id.spec_value(),
                aggregate@.as_model(),
            ),
            r matches Err(e) ==> final(self).stored() == old(self).stored() && !(e matches
            InfraError::DomainError(_)) && !(e matches InfraError::RecordNotFoundError(_)),
    ;

    /// Replaces the aggregate's persisted form.
    fn edit(&mut self, aggregate: Atm, transaction: Option<&Self::Transaction>) -> (r: Result<
        (),
        InfraError,
    >)
        ensures
            r matches Ok(()) ==> final(self).stored() == old(self).stored().insert(
                aggregate@.id.spec_value(),
                aggregate@.as_model(),
            ),
            r matches Err(e) ==> final(self).stored() == old(self).stored() && !(e matches
            InfraError::DomainError(_)) && ((e matches InfraError::RecordNotFoundError(_))
                ==> !old(self).stored().contains_key(aggregate@.id.spec_value())),
    ;

    /// Loads the aggregate stored under `id`, with an empty event buffer.
    fn find_by_id(&self, id: AtmId, transaction: Option<&Self::Transaction>) -> (r: Result<
        Atm,
        InfraError,
    >)
        ensures
            r matches Ok(a) ==> self.stored().contains_key(id.spec_value()) && a@.as_model()
                == self.stored()[id.spec_value()] && a@.id == id && a@.events
                == Seq::<crate::atm_events::AtmEvents>::empty(),
            r matches Err(e) ==> !(e matches InfraError::DomainError(_)) && ((e matches
            InfraError::RecordNotFoundError(_)) ==> !self.stored().contains_key(id.spec_value())),
    ;

    /// Deletes the record stored under `id`.
    fn remove(&mut self, id: AtmId, transaction: Option<&Self::Transaction>) -> (r: Result<
        (),
        InfraError,
    >)
        ensures
            r matches Ok(()) ==> final(self).stored() == old(self).stored().remove(
                id.spec_value(),
            ),
            r matches Err(e) ==> final(self).stored() == old(self).stored() && !(e matches
            InfraError::DomainError(_)),
    ;
}

} // verus!
