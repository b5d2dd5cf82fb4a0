//! Tests of the command-handler orchestration over the in-memory
//! infrastructure.

use ddd_cqrs::atm_command_handler::{AtmCommandHandler, RegisterAtmCommandHandler};
use ddd_cqrs::atm_commands::{AtmCommand, RegisterAtmCommand};
use ddd_cqrs::atm::{Atm, AtmId, AtmLocation};
use ddd_cqrs::bank_account::{AccountName, BankAccount, BankAccountId, EmailAddress};
use ddd_cqrs::bank_account_command_handlers::{
    BankAccountCommandHandler, DepositMoneyCommandHandler, OpenAccountCommandHandler,
    WithdrawMoneyCommandHandler, WriteCheckCommandHandler,
};
use ddd_cqrs::bank_account_commands::{
    BankAccountCommand, DepositMoneyCommand, OpenAccountCommand, WithdrawMoneyCommand,
    WriteCheckCommand,
};
use ddd_cqrs::bank_account_event_handlers::{AtmDepositHandler, AtmWithdrawHandler};
use ddd_cqrs::bank_account_events::{BankAccountEvent, CustomerDepositedMoneyEvent};
use ddd_cqrs::command::HandleCommand;
use ddd_cqrs::config::Config;
use ddd_cqrs::dedup::DedupCache;
use ddd_cqrs::error::{ApplicationError, BankAccountError, DomainError};
use ddd_cqrs::id::CommandId;
use ddd_cqrs::mock_infra::{MockAtmRepository, MockBankAccountRepository, MockPool};
use ddd_cqrs::repositories::{AtmRepository, BankAccountRepository};
use ddd_cqrs::subscribe::Subscribe;

fn email(s: &str) -> EmailAddress {
    EmailAddress::try_from(s.to_owned()).unwrap()
}

fn name(first: &str, last: &str) -> AccountName {
    AccountName::from_primitives(first.to_owned(), last.to_owned()).unwrap()
}

/// A repository already holding one opened account with the given balance.
fn repo_with_account(id: u128, balance: u64) -> MockBankAccountRepository {
    let mut repo = MockBankAccountRepository::new();
    let mut account = BankAccount::from_domains(email("a@b.com"), name("Taro", "Yamada"));
    account.open_account();
    account.take_events();
    let mut model = account.to_model();
    model.id = BankAccountId::from_value(id);
    model.balance = balance;
    repo.save(BankAccount::from_model(model), None).unwrap();
    repo
}

fn composite(
    deposit_repo: MockBankAccountRepository,
    dedup_capacity: usize,
) -> BankAccountCommandHandler<
    OpenAccountCommandHandler<MockBankAccountRepository>,
    DepositMoneyCommandHandler<MockBankAccountRepository>,
    WithdrawMoneyCommandHandler<MockBankAccountRepository>,
    WriteCheckCommandHandler<MockBankAccountRepository>,
> {
    BankAccountCommandHandler {
        open_account_handler: OpenAccountCommandHandler::new(
            MockBankAccountRepository::new(),
            MockPool,
        ),
        deposit_money_handler: DepositMoneyCommandHandler::new(
            deposit_repo,
            MockPool,
            Config::default(),
        ),
        withdraw_money_handler: WithdrawMoneyCommandHandler::new(
            MockBankAccountRepository::new(),
            MockPool,
        ),
        write_check_handler: WriteCheckCommandHandler::new(
            MockBankAccountRepository::new(),
            MockPool,
        ),
        command_id_cache: DedupCache::new(dedup_capacity),
    }
}

#[test]
fn open_account_handler_stores_opened_account() {
    let mut handler = OpenAccountCommandHandler::new(MockBankAccountRepository::new(), MockPool);
    let events = handler
        .handle_command(OpenAccountCommand {
            account_name: name("Taro", "Yamada"),
            email_address: email("a@b.com"),
        })
        .unwrap();
    assert_eq!(events.len(), 1);
    let account_id = match &events[0] {
        BankAccountEvent::AccountOpenedEvent(e) => {
            assert_eq!(e.email_address.as_str(), "a@b.com");
            e.account_id
        }
        other => panic!("unexpected event {:?}", other),
    };
    let stored = handler.repo.find_by_id(account_id, None).unwrap();
    assert!(stored.opened());
    assert_eq!(stored.balance(), 0);
    assert_eq!(stored.email_address().as_str(), "a@b.com");
}

#[test]
fn deposit_twice_with_same_command_id_mutates_once() {
    // Deposit 100000 twice with the same CommandId: the balance rises by
    // 100000 exactly once, and exactly one deposit event comes back for
    // dispatch.
    let mut handler = composite(repo_with_account(7, 0), 16);
    let command_id = CommandId::from_value(99);
    let command = DepositMoneyCommand {
        account_id: BankAccountId::from_value(7),
        amount: 100_000,
        atm_id: AtmId::from_value(3),
    };

    let first = handler
        .handle_command(BankAccountCommand::DepositMoneyCommand(command, command_id))
        .unwrap();
    assert_eq!(first.len(), 1);
    match &first[0] {
        BankAccountEvent::CustomerDepositedMoneyEvent(e) => {
            assert_eq!(e.amount, 100_000);
            assert_eq!(e.balance, 100_000);
        }
        other => panic!("unexpected event {:?}", other),
    }

    let second = handler
        .handle_command(BankAccountCommand::DepositMoneyCommand(command, command_id))
        .unwrap();
    assert!(second.is_empty());

    let stored = handler
        .deposit_money_handler
        .repo
        .find_by_id(BankAccountId::from_value(7), None)
        .unwrap();
    assert_eq!(stored.balance(), 100_000);
}

#[test]
fn deposit_over_ceiling_fails_and_changes_nothing() {
    // A deposit pushing the balance over the 100,000,000 ceiling fails
    // with the limit error, the balance is unchanged, and no event comes
    // back.
    let mut handler = composite(repo_with_account(7, 99_999_999), 16);
    let r = handler.handle_command(BankAccountCommand::DepositMoneyCommand(
        DepositMoneyCommand {
            account_id: BankAccountId::from_value(7),
            amount: 2,
            atm_id: AtmId::from_value(3),
        },
        CommandId::from_value(1),
    ));
    assert_eq!(
        r,
        Err(ApplicationError::DomainError(DomainError::BankAccountError(
            BankAccountError::DepositExceedLimitError {
                limit: 100_000_000,
                amount: 2,
                exceed_balance: 100_000_001,
            }
        )))
    );
    let stored = handler
        .deposit_money_handler
        .repo
        .find_by_id(BankAccountId::from_value(7), None)
        .unwrap();
    assert_eq!(stored.balance(), 99_999_999);
}

#[test]
fn deposit_into_unknown_account_is_record_not_found() {
    let mut handler = composite(MockBankAccountRepository::new(), 16);
    let r = handler.handle_command(BankAccountCommand::DepositMoneyCommand(
        DepositMoneyCommand {
            account_id: BankAccountId::from_value(12),
            amount: 5,
            atm_id: AtmId::from_value(3),
        },
        CommandId::from_value(1),
    ));
    assert!(matches!(r, Err(ApplicationError::RecordNotFound(_))));
}

#[test]
fn withdraw_and_write_check_through_composite() {
    let mut handler = composite(MockBankAccountRepository::new(), 16);
    let withdraw_repo = repo_with_account(8, 900);
    handler.withdraw_money_handler = WithdrawMoneyCommandHandler::new(withdraw_repo, MockPool);
    let check_repo = repo_with_account(9, 900);
    handler.write_check_handler = WriteCheckCommandHandler::new(check_repo, MockPool);

    let events = handler
        .handle_command(BankAccountCommand::WithdrawMoneyCommand(
            WithdrawMoneyCommand {
                account_id: BankAccountId::from_value(8),
                amount: 100,
                atm_id: AtmId::from_value(3),
            },
            CommandId::from_value(41),
        ))
        .unwrap();
    assert_eq!(events.len(), 1);
    match &events[0] {
        BankAccountEvent::CustomerWithdrewCashEvent(e) => {
            assert_eq!(e.amount, 100);
            assert_eq!(e.balance, 800);
        }
        other => panic!("unexpected event {:?}", other),
    }

    let events = handler
        .handle_command(BankAccountCommand::WriteCheckCommand(
            WriteCheckCommand {
                account_id: BankAccountId::from_value(9),
                amount: 250,
                check_number: "check-9".to_owned(),
            },
            CommandId::from_value(42),
        ))
        .unwrap();
    assert_eq!(events.len(), 1);
    match &events[0] {
        BankAccountEvent::CustomerWroteCheckEvent(e) => {
            assert_eq!(e.amount, 250);
            assert_eq!(e.balance, 900);
        }
        other => panic!("unexpected event {:?}", other),
    }
}

#[test]
fn register_atm_and_deduplicate() {
    let mut handler = AtmCommandHandler {
        register_command_handler: RegisterAtmCommandHandler::new(
            MockAtmRepository::new(),
            MockPool,
        ),
        command_id_cache: DedupCache::new(4),
    };
    let command = RegisterAtmCommand {
        location: AtmLocation::new("Shinjuku".to_owned()),
        total_cash: 5_000,
    };
    let command_id = CommandId::from_value(5);
    assert_eq!(
        handler.handle_command(AtmCommand::RegisterAtmCommand(command.clone(), command_id)),
        Ok(())
    );
    assert_eq!(
        handler.handle_command(AtmCommand::RegisterAtmCommand(command, command_id)),
        Ok(())
    );
}

#[test]
fn atm_event_handlers_move_cash() {
    let mut repo = MockAtmRepository::new();
    let mut model = Atm::from_domains(AtmLocation::new("Ginza".to_owned()), 1_000).to_model();
    model.id = AtmId::from_value(3);
    repo.save(Atm::from_model(model), None).unwrap();

    let mut deposit_handler = AtmDepositHandler::new(repo, MockPool);
    let event = CustomerDepositedMoneyEvent {
        account_id: BankAccountId::from_value(7),
        amount: 500,
        balance: 500,
        atm_id: AtmId::from_value(3),
    };
    deposit_handler.handle_event(&event).unwrap();
    let atm = deposit_handler.repo.find_by_id(AtmId::from_value(3), None).unwrap();
    assert_eq!(atm.total_cash(), 1_500);

    let mut withdraw_handler = AtmWithdrawHandler::new(deposit_handler.repo, MockPool);
    let event = ddd_cqrs::bank_account_events::CustomerWithdrewCashEvent {
        account_id: BankAccountId::from_value(7),
        amount: 2_000,
        balance: 0,
        atm_id: AtmId::from_value(3),
    };
    let r = withdraw_handler.handle_event(&event);
    assert_eq!(
        r,
        Err(ApplicationError::DomainError(DomainError::AtmError(
            ddd_cqrs::error::AtmError::CannotWithdrawError {
                total_cash: 1_500,
                withdraw_amount: 2_000,
            }
        )))
    );
    let atm = withdraw_handler.repo.find_by_id(AtmId::from_value(3), None).unwrap();
    assert_eq!(atm.total_cash(), 1_500);
}

#[test]
fn default_config_has_documented_ceiling() {
    assert_eq!(Config::default().balance_upper_lim, 100_000_000);
    assert_eq!(Config::new(5_000).balance_upper_lim, 5_000);
}
