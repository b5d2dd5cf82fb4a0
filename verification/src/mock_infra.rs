//! In-memory implementations of the transaction and repository ports, for
//! wiring the orchestration without a database.

use crate::atm;
use crate::atm::{Atm, AtmId};
use crate::bank_account;
use crate::bank_account::{BankAccount, BankAccountId};
use crate::error::InfraError;
use crate::id::lemma_id_ext;
use crate::repositories::{AtmRepository, BankAccountRepository, Transaction};
use std::collections::HashMap;
use vstd::prelude::*;

verus! {

broadcast use vstd::std_specs::hash::group_hash_axioms;

/// A transaction that performs no work and never fails.
pub struct MockTransaction;

/// The pool mock transactions are drawn from.
#[derive(Clone)]
pub struct MockPool;

impl Transaction for MockTransaction {
    type Pool = MockPool;

    fn begin(pool: &MockPool) -> (r: Result<Self, InfraError>)
        ensures
            r matches Ok(_),
    {
        Ok(MockTransaction)
    }

    fn commit(self) -> (r: Result<(), InfraError>)
        ensures
            r matches Ok(()),
    {
        Ok(())
    }

    fn rollback(self) -> (r: Result<(), InfraError>)
        ensures
            r matches Ok(()),
    {
        Ok(())
    }
}

/// An in-memory bank-account store that never fails: every operation
/// succeeds, and a lookup succeeds exactly when the record exists.
///
/// `stored` counts only well-keyed entries, those whose record carries the
/// id it is filed under; every write files a record under its own id, so
/// every entry this store ever makes is well-keyed.
pub struct MockBankAccountRepository {
    records: HashMap<u128, bank_account::Model>,
}

/// The well-keyed entries of a record map.
pub open spec fn well_keyed_accounts(records: Map<u128, bank_account::Model>) -> Map<
    u128,
    bank_account::Model,
> {
    Map::new(
        |k: u128| records.contains_key(k) && records[k].id.spec_value() == k,
        |k: u128| records[k],
    )
}

impl MockBankAccountRepository {
    /// Creates an empty store.
    pub fn new() -> (r: Self)
        ensures
            r.stored() == Map::<u128, bank_account::Model>::empty(),
    {
        Self { records: HashMap::new() }
    }
}

impl BankAccountRepository for MockBankAccountRepository {
    type Transaction = MockTransaction;

    closed spec fn stored(&self) -> Map<u128, bank_account::Model> {
        well_keyed_accounts(self.records@)
    }

    fn save(&mut self, aggregate: BankAccount, transaction: Option<&MockTransaction>) -> (r:
        Result<(), InfraError>)
        ensures
            r matches Ok(()),
    {
        let model = aggregate.to_model();
        let key = aggregate.id().value();
        self.records.insert(key, model);
        proof {
            assert(self.stored() =~= old(self).stored().insert(
                aggregate@.id.spec_value(),
                aggregate@.as_model(),
            ));
        }
        Ok(())
    }

    fn edit(&mut self, aggregate: BankAccount, transaction: Option<&MockTransaction>) -> (r:
        Result<(), InfraError>)
        ensures
            r matches Ok(()),
    {
        let model = aggregate.to_model();
        let key = aggregate.id().value();
        self.records.insert(key, model);
        proof {
            assert(self.stored() =~= old(self).stored().insert(
                aggregate@.id.spec_value(),
                aggregate@.as_model(),
            ));
        }
        Ok(())
    }

    fn find_by_id(&self, id: BankAccountId, transaction: Option<&MockTransaction>) -> (r: Result<
        BankAccount,
        InfraError,
    >)
        ensures
            self.stored().contains_key(id.spec_value()) <==> r matches Ok(_),
    {
        match self.records.get(&id.value()) {
            Some(model) => {
                if model.id == id {
                    proof {
                        lemma_id_ext(model.id, id);
                    }
                    Ok(BankAccount::from_model(model.clone()))
                } else {
                    Err(InfraError::RecordNotFoundError("bank account not found".to_owned()))
                }
            },
            None => Err(InfraError::RecordNotFoundError("bank account not found".to_owned())),
        }
    }

    fn remove(&mut self, id: BankAccountId, transaction: Option<&MockTransaction>) -> (r: Result<
        (),
        InfraError,
    >)
        ensures
            r matches Ok(()),
    {
        self.records.remove(&id.value());
        proof {
            assert(self.stored() =~= old(self).stored().remove(id.spec_value()));
        }
        Ok(())
    }
}

/// An in-memory ATM store that never fails: every operation succeeds, and a
/// lookup succeeds exactly when the record exists.
///
/// `stored` counts only well-keyed entries, exactly as in
/// [`MockBankAccountRepository`].
pub struct MockAtmRepository {
    records: HashMap<u128, atm::Model>,
}

/// The well-keyed entries of a record map.
pub open spec fn well_keyed_atms(records: Map<u128, atm::Model>) -> Map<u128, atm::Model> {
    Map::new(
        |k: u128| records.contains_key(k) && records[k].id.spec_value() == k,
        |k: u128| records[k],
    )
}

impl MockAtmRepository {
    /// Creates an empty store.
    pub fn new() -> (r: Self)
        ensures
            r.stored() == Map::<u128, atm::Model>::empty(),
    {
        Self { records: HashMap::new() }
    }
}

impl AtmRepository for MockAtmRepository {
    type Transaction = MockTransaction;

    closed spec fn stored(&self) -> Map<u128, atm::Model> {
        well_keyed_atms(self.records@)
    }

    fn save(&mut self, aggregate: Atm, transaction: Option<&MockTransaction>) -> (r: Result<
        (),
        InfraError,
    >)
        ensures
            r matches Ok(()),
    {
        let model = aggregate.to_model();
        let key = aggregate.id().value();
        self.records.insert(key, model);
        Ok(())
    }

    fn edit(&mut self, aggregate: Atm, transaction: Option<&MockTransaction>) -> (r: Result<
        (),
        InfraError,
    >)
        ensures
            r matches Ok(()),
    {
        let model = aggregate.to_model();
        let key = aggregate.id().value();
        self.records.insert(key, model);
        Ok(())
    }

    fn find_by_id(&self, id: AtmId, transaction: Option<&MockTransaction>) -> (r: Result<
        Atm,
        InfraError,
    >)
        ensures
            self.stored().contains_key(id.spec_value()) <==> r matches Ok(_),
    {
        match self.records.get(&id.value()) {
            Some(model) => {
                if model.id == id {
                    proof {
                        lemma_id_ext(model.id, id);
                    }
                    Ok(Atm::from_model(model.clone()))
                } else {
                    Err(InfraError::RecordNotFoundError("atm not found".to_owned()))
                }
            },
            None => Err(InfraError::RecordNotFoundError("atm not found".to_owned())),
        }
    }

    fn remove(&mut self, id: AtmId, transaction: Option<&MockTransaction>) -> (r: Result<
        (),
        InfraError,
    >)
        ensures
            r matches Ok(()),
    {
        self.records.remove(&id.value());
        proof {
            assert(self.stored() =~= old(self).stored().remove(id.spec_value()));
        }
        Ok(())
    }
}

} // verus!
