//! Command handlers of the bank-account aggregate: one handler per command,
//! each running the whole mutation cycle inside one transaction, and a
//! composite handler that multiplexes the command variants behind one
//! deduplication cache.

use crate::bank_account::{BankAccount, Model};
use crate::bank_account_commands::BankAccountCommand;
use crate::dedup::{dedup_capacity, dedup_ids, dedup_step, DedupCache};
use crate::id::CommandId;
use crate::bank_account_commands::{
    DepositMoneyCommand, OpenAccountCommand, WithdrawMoneyCommand, WriteCheckCommand,
};
use crate::bank_account_events::{
    BankAccountEvent, CustomerDepositedMoneyEvent, CustomerWithdrewCashEvent,
};
use crate::command::HandleCommand;
use crate::config::Config;
use crate::error::{ApplicationError, BankAccountError, DomainError};
use crate::repositories::{BankAccountRepository, Transaction};
use vstd::prelude::*;

verus! {

/// Handles [`OpenAccountCommand`]: builds a fresh account, opens it, and
/// saves it inside one transaction.
pub struct OpenAccountCommandHandler<R: BankAccountRepository> {
    pub repo: R,
    pub pool: <R::Transaction as Transaction>::Pool,
}

impl<R: BankAccountRepository> OpenAccountCommandHandler<R> {
    /// Wires the handler to a repository and a transaction pool.
    pub fn new(repo: R, pool: <R::Transaction as Transaction>::Pool) -> (r: Self)
        ensures
            r.repo == repo,
            r.pool == pool,
    {
        Self { repo, pool }
    }
}

impl<R: BankAccountRepository> HandleCommand for OpenAccountCommandHandler<R> {
    type Command = OpenAccountCommand;

    type Aggregate = BankAccount;

    /// On success, exactly one fresh account was stored — opened, with
    /// balance zero and the command's name and address — and exactly one
    /// `AccountOpenedEvent` is returned, naming the new account's id and
    /// address. On an infrastructure failure the store holds either the old
    /// records or, when only the commit failed, also the new account.
    open spec fn handle_post(
        pre: Self,
        post: Self,
        command: OpenAccountCommand,
        r: Result<Vec<BankAccountEvent>, ApplicationError>,
    ) -> bool {
        let stored0 = pre.repo.stored();
        match r {
            Ok(events) => events@.len() == 1 && match events@[0] {
                BankAccountEvent::AccountOpenedEvent(e) => {
                    &&& e.email_address == command.email_address
                    &&& post.repo.stored() == stored0.insert(
                        e.account_id.spec_value(),
                        Model {
                            id: e.account_id,
                            opened: true,
                            balance: 0,
                            email_address: command.email_address,
                            account_name: command.account_name,
                        },
                    )
                },
                _ => false,
            },
            Err(e) => e matches ApplicationError::OtherInfraError(_) && (post.repo.stored()
                == stored0 || exists|account_id: crate::bank_account::BankAccountId|
                post.repo.stored() == #[trigger] stored0.insert(
                    account_id.spec_value(),
                    Model {
                        id: account_id,
                        opened: true,
                        balance: 0,
                        email_address: command.email_address,
                        account_name: command.account_name,
                    },
                )),
        }
    }

    open spec fn allow_duplicate_spec() -> bool {
        false
    }

    fn handle_command(&mut self, command: OpenAccountCommand) -> (r: Result<
        Vec<BankAccountEvent>,
        ApplicationError,
    >) {
        let transaction = match <R::Transaction as Transaction>::begin(&self.pool) {
            Ok(t) => t,
            Err(e) => {
                return Err(ApplicationError::from(e));
            },
        };
        let OpenAccountCommand { account_name, email_address } = command;

        let mut bank_account = BankAccount::from_domains(email_address, account_name);
        bank_account.open_account();

        let ghost new_id = bank_account@.id;
        let events = bank_account.take_events();

        match self.repo.save(bank_account, Some(&transaction)) {
            Ok(()) => {},
            Err(e) => {
                return Err(ApplicationError::from(e));
            },
        }
        match transaction.commit() {
            Ok(()) => {},
            Err(e) => {
                proof {
                    let inserted = self.repo.stored();
                    assert(inserted == old(self).repo.stored().insert(
                        new_id.spec_value(),
                        Model {
                            id: new_id,
                            opened: true,
                            balance: 0,
                            email_address: command.email_address,
                            account_name: command.account_name,
                        },
                    ));
                }
                return Err(ApplicationError::from(e));
            },
        }
        Ok(events)
    }

    fn allow_duplicate(&self) -> (r: bool) {
        false
    }
}

/// Handles [`DepositMoneyCommand`]: loads the account, deposits the amount
/// under the configured ceiling, appends the deposit event only when the
/// deposit succeeded, and persists inside one transaction.
pub struct DepositMoneyCommandHandler<R: BankAccountRepository> {
    pub repo: R,
    pub pool: <R::Transaction as Transaction>::Pool,
    pub config: Config,
}

impl<R: BankAccountRepository> DepositMoneyCommandHandler<R> {
    /// Wires the handler to a repository, a transaction pool, and the
    /// configured balance ceiling.
    pub fn new(repo: R, pool: <R::Transaction as Transaction>::Pool, config: Config) -> (r: Self)
        ensures
            r.repo == repo,
            r.pool == pool,
            r.config == config,
    {
        Self { repo, pool, config }
    }
}

impl<R: BankAccountRepository> HandleCommand for DepositMoneyCommandHandler<R> {
    type Command = DepositMoneyCommand;

    type Aggregate = BankAccount;

    /// On success the stored balance rose by exactly the amount, staying at
    /// or under the ceiling, and exactly one `CustomerDepositedMoneyEvent`
    /// carrying the new balance is returned. A deposit that would exceed
    /// the ceiling fails with `DepositExceedLimitError` and changes
    /// nothing; an unknown account fails with `RecordNotFound` and changes
    /// nothing; on an infrastructure failure the store holds either the old
    /// records or, when only the commit failed, also the new balance.
    open spec fn handle_post(
        pre: Self,
        post: Self,
        command: DepositMoneyCommand,
        r: Result<Vec<BankAccountEvent>, ApplicationError>,
    ) -> bool {
        let key = command.account_id.spec_value();
        let stored0 = pre.repo.stored();
        let limit = pre.config.balance_upper_lim;
        &&& post.config == pre.config
        &&& match r {
            Ok(events) => {
                &&& stored0.contains_key(key)
                &&& stored0[key].balance + command.amount <= limit
                &&& post.repo.stored() == stored0.insert(
                    key,
                    Model {
                        balance: (stored0[key].balance + command.amount) as u64,
                        ..stored0[key]
                    },
                )
                &&& events@ == seq![
                    BankAccountEvent::CustomerDepositedMoneyEvent(
                        CustomerDepositedMoneyEvent {
                            account_id: command.account_id,
                            amount: command.amount,
                            balance: (stored0[key].balance + command.amount) as u64,
                            atm_id: command.atm_id,
                        },
                    ),
                ]
            },
            Err(e) => match e {
                ApplicationError::DomainError(d) => {
                    &&& stored0.contains_key(key)
                    &&& stored0[key].balance + command.amount > limit
                    &&& d == DomainError::BankAccountError(
                        BankAccountError::DepositExceedLimitError {
                            limit,
                            amount: command.amount,
                            exceed_balance: (stored0[key].balance + command.amount) as u128,
                        },
                    )
                    &&& post.repo.stored() == stored0
                },
                ApplicationError::RecordNotFound(_) => {
                    &&& !stored0.contains_key(key)
                    &&& post.repo.stored() == stored0
                },
                ApplicationError::OtherInfraError(_) => post.repo.stored() == stored0 || (
                stored0.contains_key(key) && stored0[key].balance + command.amount <= limit
                    && post.repo.stored() == stored0.insert(
                    key,
                    Model {
                        balance: (stored0[key].balance + command.amount) as u64,
                        ..stored0[key]
                    },
                )),
                _ => false,
            },
        }
    }

    open spec fn allow_duplicate_spec() -> bool {
        false
    }

    fn handle_command(&mut self, command: DepositMoneyCommand) -> (r: Result<
        Vec<BankAccountEvent>,
        ApplicationError,
    >) {
        let transaction = match <R::Transaction as Transaction>::begin(&self.pool) {
            Ok(t) => t,
            Err(e) => {
                return Err(ApplicationError::from(e));
            },
        };
        let DepositMoneyCommand { account_id, amount, atm_id } = command;

        let mut bank_account = match self.repo.find_by_id(account_id, Some(&transaction)) {
            Ok(a) => a,
            Err(e) => {
                return Err(ApplicationError::from(e));
            },
        };
        match bank_account.deposit_money(amount, self.config.balance_upper_lim) {
            Ok(()) => {
                let balance = bank_account.balance();
                bank_account.push_event(
                    BankAccountEvent::CustomerDepositedMoneyEvent(
                        CustomerDepositedMoneyEvent { account_id, amount, balance, atm_id },
                    ),
                );
            },
            Err(e) => {
                match transaction.rollback() {
                    _ => {},
                }
                return Err(ApplicationError::from(e));
            },
        }

        let events = bank_account.take_events();
        match self.repo.edit(bank_account, Some(&transaction)) {
            Ok(()) => {},
            Err(e) => {
                return Err(ApplicationError::from(e));
            },
        }
        match transaction.commit() {
            Ok(()) => {},
            Err(e) => {
                return Err(ApplicationError::from(e));
            },
        }
        Ok(events)
    }

    fn allow_duplicate(&self) -> (r: bool) {
        false
    }
}

/// Handles [`WithdrawMoneyCommand`]: loads the account, withdraws the
/// amount if the balance strictly covers it, appends the withdrawal event
/// only when the withdrawal succeeded, and persists inside one transaction.
pub struct WithdrawMoneyCommandHandler<R: BankAccountRepository> {
    pub repo: R,
    pub pool: <R::Transaction as Transaction>::Pool,
}

impl<R: BankAccountRepository> WithdrawMoneyCommandHandler<R> {
    /// Wires the handler to a repository and a transaction pool.
    pub fn new(repo: R, pool: <R::Transaction as Transaction>::Pool) -> (r: Self)
        ensures
            r.repo == repo,
            r.pool == pool,
    {
        Self { repo, pool }
    }
}

impl<R: BankAccountRepository> HandleCommand for WithdrawMoneyCommandHandler<R> {
    type Command = WithdrawMoneyCommand;

    type Aggregate = BankAccount;

    /// On success the stored balance fell by exactly the amount, which the
    /// old balance strictly covered, and exactly one
    /// `CustomerWithdrewCashEvent` carrying the new balance is returned. A
    /// withdrawal of the full balance or more fails with
    /// `WithdrawExceedBalanceError` and changes nothing; an unknown account
    /// fails with `RecordNotFound` and changes nothing; on an
    /// infrastructure failure the store holds either the old records or,
    /// when only the commit failed, also the new balance.
    open spec fn handle_post(
        pre: Self,
        post: Self,
        command: WithdrawMoneyCommand,
        r: Result<Vec<BankAccountEvent>, ApplicationError>,
    ) -> bool {
        let key = command.account_id.spec_value();
        let stored0 = pre.repo.stored();
        match r {
            Ok(events) => {
                &&& stored0.contains_key(key)
                &&& command.amount < stored0[key].balance
                &&& post.repo.stored() == stored0.insert(
                    key,
                    Model {
                        balance: (stored0[key].balance - command.amount) as u64,
                        ..stored0[key]
                    },
                )
                &&& events@ == seq![
                    BankAccountEvent::CustomerWithdrewCashEvent(
                        CustomerWithdrewCashEvent {
                            account_id: command.account_id,
                            amount: command.amount,
                            balance: (stored0[key].balance - command.amount) as u64,
                            atm_id: command.atm_id,
                        },
                    ),
                ]
            },
            Err(e) => match e {
                ApplicationError::DomainError(d) => {
                    &&& stored0.contains_key(key)
                    &&& command.amount >= stored0[key].balance
                    &&& d == DomainError::BankAccountError(
                        BankAccountError::WithdrawExceedBalanceError {
                            amount: command.amount,
                            balance: stored0[key].balance,
                        },
                    )
                    &&& post.repo.stored() == stored0
                },
                ApplicationError::RecordNotFound(_) => {
                    &&& !stored0.contains_key(key)
                    &&& post.repo.stored() == stored0
                },
                ApplicationError::OtherInfraError(_) => post.repo.stored() == stored0 || (
                stored0.contains_key(key) && command.amount < stored0[key].balance
                    && post.repo.stored() == stored0.insert(
                    key,
                    Model {
                        balance: (stored0[key].balance - command.amount) as u64,
                        ..stored0[key]
                    },
                )),
                _ => false,
            },
        }
    }

    open spec fn allow_duplicate_spec() -> bool {
        false
    }

    fn handle_command(&mut self, command: WithdrawMoneyCommand) -> (r: Result<
        Vec<BankAccountEvent>,
        ApplicationError,
    >) {
        let transaction = match <R::Transaction as Transaction>::begin(&self.pool) {
            Ok(t) => t,
            Err(e) => {
                return Err(ApplicationError::from(e));
            },
        };
        let WithdrawMoneyCommand { account_id, amount, atm_id } = command;

        let mut bank_account = match self.repo.find_by_id(account_id, Some(&transaction)) {
            Ok(a) => a,
            Err(e) => {
                return Err(ApplicationError::from(e));
            },
        };
        match bank_account.withdraw_money(amount) {
            Ok(()) => {
                let balance = bank_account.balance();
                bank_account.push_event(
                    BankAccountEvent::CustomerWithdrewCashEvent(
                        CustomerWithdrewCashEvent { account_id, amount, balance, atm_id },
                    ),
                );
            },
            Err(e) => {
                match transaction.rollback() {
                    _ => {},
                }
                return Err(ApplicationError::from(e));
            },
        }

        let events = bank_account.take_events();
        match self.repo.edit(bank_account, Some(&transaction)) {
            Ok(()) => {},
            Err(e) => {
                return Err(ApplicationError::from(e));
            },
        }
        match transaction.commit() {
            Ok(()) => {},
            Err(e) => {
                return Err(ApplicationError::from(e));
            },
        }
        Ok(events)
    }

    fn allow_duplicate(&self) -> (r: bool) {
        false
    }
}

/// Handles [`WriteCheckCommand`]: loads the account and lets the aggregate
/// write the check, which itself raises the check event, then persists
/// inside one transaction.
pub struct WriteCheckCommandHandler<R: BankAccountRepository> {
    pub repo: R,
    pub pool: <R::Transaction as Transaction>::Pool,
}

impl<R: BankAccountRepository> WriteCheckCommandHandler<R> {
    /// Wires the handler to a repository and a transaction pool.
    pub fn new(repo: R, pool: <R::Transaction as Transaction>::Pool) -> (r: Self)
        ensures
            r.repo == repo,
            r.pool == pool,
    {
        Self { repo, pool }
    }
}

impl<R: BankAccountRepository> HandleCommand for WriteCheckCommandHandler<R> {
    type Command = WriteCheckCommand;

    type Aggregate = BankAccount;

    /// On success the stored balance fell by exactly the amount, which the
    /// old balance strictly covered, and exactly one
    /// `CustomerWroteCheckEvent` is returned, carrying the balance as it
    /// stood before the check. A check over the full balance or more fails
    /// with `CheckExceedBalanceError` and changes nothing; an unknown
    /// account fails with `RecordNotFound` and changes nothing; on an
    /// infrastructure failure the store holds either the old records or,
    /// when only the commit failed, also the new balance.
    open spec fn handle_post(
        pre: Self,
        post: Self,
        command: WriteCheckCommand,
        r: Result<Vec<BankAccountEvent>, ApplicationError>,
    ) -> bool {
        let key = command.account_id.spec_value();
        let stored0 = pre.repo.stored();
        match r {
            Ok(events) => {
                &&& stored0.contains_key(key)
                &&& command.amount < stored0[key].balance
                &&& post.repo.stored() == stored0.insert(
                    key,
                    Model {
                        balance: (stored0[key].balance - command.amount) as u64,
                        ..stored0[key]
                    },
                )
                &&& events@ == seq![
                    BankAccountEvent::CustomerWroteCheckEvent(
                        crate::bank_account_events::CustomerWroteCheckEvent {
                            account_id: command.account_id,
                            check_number: command.check_number,
                            amount: command.amount,
                            balance: stored0[key].balance,
                        },
                    ),
                ]
            },
            Err(e) => match e {
                ApplicationError::DomainError(d) => {
                    &&& stored0.contains_key(key)
                    &&& command.amount >= stored0[key].balance
                    &&& d == DomainError::BankAccountError(
                        BankAccountError::CheckExceedBalanceError {
                            amount: command.amount,
                            balance: stored0[key].balance,
                        },
                    )
                    &&& post.repo.stored() == stored0
                },
                ApplicationError::RecordNotFound(_) => {
                    &&& !stored0.contains_key(key)
                    &&& post.repo.stored() == stored0
                },
                ApplicationError::OtherInfraError(_) => post.repo.stored() == stored0 || (
                stored0.contains_key(key) && command.amount < stored0[key].balance
                    && post.repo.stored() == stored0.insert(
                    key,
                    Model {
                        balance: (stored0[key].balance - command.amount) as u64,
                        ..stored0[key]
                    },
                )),
                _ => false,
            },
        }
    }

    open spec fn allow_duplicate_spec() -> bool {
        false
    }

    fn handle_command(&mut self, command: WriteCheckCommand) -> (r: Result<
        Vec<BankAccountEvent>,
        ApplicationError,
    >) {
        let transaction = match <R::Transaction as Transaction>::begin(&self.pool) {
            Ok(t) => t,
            Err(e) => {
                return Err(ApplicationError::from(e));
            },
        };
        let WriteCheckCommand { account_id, amount, check_number } = command;

        let mut bank_account = match self.repo.find_by_id(account_id, Some(&transaction)) {
            Ok(a) => a,
            Err(e) => {
                return Err(ApplicationError::from(e));
            },
        };
        match bank_account.write_check(amount, check_number) {
            Ok(()) => {},
            Err(e) => {
                match transaction.rollback() {
                    _ => {},
                }
                return Err(ApplicationError::from(e));
            },
        }

        let events = bank_account.take_events();
        match self.repo.edit(bank_account, Some(&transaction)) {
            Ok(()) => {},
            Err(e) => {
                return Err(ApplicationError::from(e));
            },
        }
        match transaction.commit() {
            Ok(()) => {},
            Err(e) => {
                return Err(ApplicationError::from(e));
            },
        }
        Ok(events)
    }

    fn allow_duplicate(&self) -> (r: bool) {
        false
    }
}


/// The composite bank-account command handler: multiplexes the command
/// variants to the injected per-command handlers, behind one shared,
/// bounded deduplication cache that makes retried commands take effect
/// exactly once within the cache's window.
pub struct BankAccountCommandHandler<OH, DH, WH, CH> {
    pub open_account_handler: OH,
    pub deposit_money_handler: DH,
    pub withdraw_money_handler: WH,
    pub write_check_handler: CH,
    pub command_id_cache: DedupCache,
}

impl<OH, DH, WH, CH> BankAccountCommandHandler<OH, DH, WH, CH> where
    OH: HandleCommand<Command = OpenAccountCommand, Aggregate = BankAccount>,
    DH: HandleCommand<Command = DepositMoneyCommand, Aggregate = BankAccount>,
    WH: HandleCommand<Command = WithdrawMoneyCommand, Aggregate = BankAccount>,
    CH: HandleCommand<Command = WriteCheckCommand, Aggregate = BankAccount>,
 {
    /// Records the command identifier and reports whether it was already in
    /// the deduplication window. The check and the insert form one step, so
    /// two submissions of one identifier cannot both pass as new.
    fn check_command_duplicate(&mut self, id: CommandId) -> (r: bool)
        ensures
            ({
                let (ids, duplicate) = dedup_step(
                    dedup_ids(&old(self).command_id_cache),
                    dedup_capacity(&old(self).command_id_cache),
                    id.spec_value(),
                );
                &&& r == duplicate
                &&& dedup_ids(&final(self).command_id_cache) == ids
                &&& dedup_capacity(&final(self).command_id_cache) == dedup_capacity(
                    &old(self).command_id_cache,
                )
            }),
            final(self).open_account_handler == old(self).open_account_handler,
            final(self).deposit_money_handler == old(self).deposit_money_handler,
            final(self).withdraw_money_handler == old(self).withdraw_money_handler,
            final(self).write_check_handler == old(self).write_check_handler,
    {
        self.command_id_cache.check_and_record(id.value())
    }

    /// How one handled command relates the composite's state before (`pre`)
    /// and after (`post`) the call to the command and its result: the
    /// command's identifier is recorded in the deduplication window; a
    /// duplicate of a handler that does not allow duplicates succeeds with
    /// zero events and zero effect; otherwise exactly the matching
    /// handler's own relation holds, and the other handlers are untouched.
    pub open spec fn dispatch_post(
        pre: Self,
        post: Self,
        command: BankAccountCommand,
        r: Result<Vec<BankAccountEvent>, ApplicationError>,
    ) -> bool {
        let (ids, duplicate) = dedup_step(
            dedup_ids(&pre.command_id_cache),
            dedup_capacity(&pre.command_id_cache),
            command.spec_id().spec_value(),
        );
        &&& dedup_ids(&post.command_id_cache) == ids
        &&& dedup_capacity(&post.command_id_cache) == dedup_capacity(&pre.command_id_cache)
        &&& match command {
            BankAccountCommand::OpenAccountCommand(cmd, _) => {
                &&& post.deposit_money_handler == pre.deposit_money_handler
                &&& post.withdraw_money_handler == pre.withdraw_money_handler
                &&& post.write_check_handler == pre.write_check_handler
                &&& if duplicate && !OH::allow_duplicate_spec() {
                    post.open_account_handler == pre.open_account_handler && (r matches Ok(events)
                        && events@ == Seq::<BankAccountEvent>::empty())
                } else {
                    OH::handle_post(pre.open_account_handler, post.open_account_handler, cmd, r)
                }
            },
            BankAccountCommand::DepositMoneyCommand(cmd, _) => {
                &&& post.open_account_handler == pre.open_account_handler
                &&& post.withdraw_money_handler == pre.withdraw_money_handler
                &&& post.write_check_handler == pre.write_check_handler
                &&& if duplicate && !DH::allow_duplicate_spec() {
                    post.deposit_money_handler == pre.deposit_money_handler && (r matches Ok(
                        events,
                    ) && events@ == Seq::<BankAccountEvent>::empty())
                } else {
                    DH::handle_post(pre.deposit_money_handler, post.deposit_money_handler, cmd, r)
                }
            },
            BankAccountCommand::WithdrawMoneyCommand(cmd, _) => {
                &&& post.open_account_handler == pre.open_account_handler
                &&& post.deposit_money_handler == pre.deposit_money_handler
                &&& post.write_check_handler == pre.write_check_handler
                &&& if duplicate && !WH::allow_duplicate_spec() {
                    post.withdraw_money_handler == pre.withdraw_money_handler && (r matches Ok(
                        events,
                    ) && events@ == Seq::<BankAccountEvent>::empty())
                } else {
                    WH::handle_post(
                        pre.withdraw_money_handler,
                        post.withdraw_money_handler,
                        cmd,
                        r,
                    )
                }
            },
            BankAccountCommand::WriteCheckCommand(cmd, _) => {
                &&& post.open_account_handler == pre.open_account_handler
                &&& post.deposit_money_handler == pre.deposit_money_handler
                &&& post.withdraw_money_handler == pre.withdraw_money_handler
                &&& if duplicate && !CH::allow_duplicate_spec() {
                    post.write_check_handler == pre.write_check_handler && (r matches Ok(events)
                        && events@ == Seq::<BankAccountEvent>::empty())
                } else {
                    CH::handle_post(pre.write_check_handler, post.write_check_handler, cmd, r)
                }
            },
        }
    }

    /// Executes one bank-account command: records its identifier, rejects a
    /// duplicate as a success with zero effect and zero events (unless the
    /// matching handler allows duplicates), and otherwise delegates to the
    /// matching handler and returns the events of the committed mutation,
    /// ready for dispatch on the event bus.
    pub fn handle_command(&mut self, command: BankAccountCommand) -> (r: Result<
        Vec<BankAccountEvent>,
        ApplicationError,
    >)
        ensures
            Self::dispatch_post(*old(self), *final(self), command, r),
    {
        match command {
            BankAccountCommand::OpenAccountCommand(cmd, id) => {
                if !self.check_command_duplicate(id) {
                    self.open_account_handler.handle_command(cmd)
                } else if self.open_account_handler.allow_duplicate() {
                    self.open_account_handler.handle_command(cmd)
                } else {
                    Ok(Vec::new())
                }
            },
            BankAccountCommand::DepositMoneyCommand(cmd, id) => {
                if !self.check_command_duplicate(id) {
                    self.deposit_money_handler.handle_command(cmd)
                } else if self.deposit_money_handler.allow_duplicate() {
                    self.deposit_money_handler.handle_command(cmd)
                } else {
                    Ok(Vec::new())
                }
            },
            BankAccountCommand::WithdrawMoneyCommand(cmd, id) => {
                if !self.check_command_duplicate(id) {
                    self.withdraw_money_handler.handle_command(cmd)
                } else if self.withdraw_money_handler.allow_duplicate() {
                    self.withdraw_money_handler.handle_command(cmd)
                } else {
                    Ok(Vec::new())
                }
            },
            BankAccountCommand::WriteCheckCommand(cmd, id) => {
                if !self.check_command_duplicate(id) {
                    self.write_check_handler.handle_command(cmd)
                } else if self.write_check_handler.allow_duplicate() {
                    self.write_check_handler.handle_command(cmd)
                } else {
                    Ok(Vec::new())
                }
            },
        }
    }
}


/// Submitting structurally-identical commands twice with the same command
/// identifier, to handlers that do not allow duplicates, mutates state
/// exactly once: whatever the first submission did, the second one returns
/// success with zero events and leaves every handler — and with it every
/// store — untouched.
pub proof fn lemma_resubmission_is_inert<OH, DH, WH, CH>(
    s0: BankAccountCommandHandler<OH, DH, WH, CH>,
    s1: BankAccountCommandHandler<OH, DH, WH, CH>,
    s2: BankAccountCommandHandler<OH, DH, WH, CH>,
    command: BankAccountCommand,
    r1: Result<Vec<BankAccountEvent>, ApplicationError>,
    r2: Result<Vec<BankAccountEvent>, ApplicationError>,
) where
    OH: HandleCommand<Command = OpenAccountCommand, Aggregate = BankAccount>,
    DH: HandleCommand<Command = DepositMoneyCommand, Aggregate = BankAccount>,
    WH: HandleCommand<Command = WithdrawMoneyCommand, Aggregate = BankAccount>,
    CH: HandleCommand<Command = WriteCheckCommand, Aggregate = BankAccount>,

    requires
        dedup_capacity(&s0.command_id_cache) >= 1,
        !OH::allow_duplicate_spec(),
        !DH::allow_duplicate_spec(),
        !WH::allow_duplicate_spec(),
        !CH::allow_duplicate_spec(),
        BankAccountCommandHandler::dispatch_post(s0, s1, command, r1),
        BankAccountCommandHandler::dispatch_post(s1, s2, command, r2),
    ensures
        s2.open_account_handler == s1.open_account_handler,
        s2.deposit_money_handler == s1.deposit_money_handler,
        s2.withdraw_money_handler == s1.withdraw_money_handler,
        s2.write_check_handler == s1.write_check_handler,
        r2 matches Ok(events) && events@ == Seq::<BankAccountEvent>::empty(),
{
    let id = command.spec_id().spec_value();
    crate::dedup::lemma_recorded_id_is_in_window(
        dedup_ids(&s0.command_id_cache),
        dedup_capacity(&s0.command_id_cache),
        id,
    );
    assert(dedup_ids(&s1.command_id_cache).contains(id));
}

} // verus!
