//! Tests of the aggregates and their value objects.

use ddd_cqrs::bank_account::{AccountName, BankAccount, EmailAddress};
use ddd_cqrs::bank_account_events::BankAccountEvent;
use ddd_cqrs::error::{AtmError, BankAccountError, DomainError};
use ddd_cqrs::atm::{Atm, AtmLocation};

fn email(s: &str) -> EmailAddress {
    EmailAddress::try_from(s.to_owned()).unwrap()
}

fn name(first: &str, last: &str) -> AccountName {
    AccountName::from_primitives(first.to_owned(), last.to_owned()).unwrap()
}

#[test]
fn email_address_validation() {
    let ok = EmailAddress::try_from("a@b.com".to_owned()).unwrap();
    assert_eq!(ok.as_str(), "a@b.com");
    let bad = EmailAddress::try_from("not-an-email".to_owned());
    assert!(matches!(
        bad,
        Err(DomainError::DomainParseError(ref m)) if m == "invalid email address"
    ));
}

#[test]
fn account_name_parts_and_full_name() {
    let n = name("Taro", "Yamada");
    assert_eq!(n.first_name(), "Taro");
    assert_eq!(n.last_name(), "Yamada");
    assert_eq!(n.to_name_string(), "Taro Yamada");
}

#[test]
fn open_account_scenario() {
    // Open account (first="Taro", last="Yamada", email="a@b.com"): the
    // aggregate has balance 0, opened == true, and exactly one
    // AccountOpenedEvent with that email.
    let mut account = BankAccount::from_domains(email("a@b.com"), name("Taro", "Yamada"));
    assert!(!account.opened());
    account.open_account();
    assert!(account.opened());
    assert_eq!(account.balance(), 0);
    let events = account.take_events();
    assert_eq!(events.len(), 1);
    match &events[0] {
        BankAccountEvent::AccountOpenedEvent(e) => {
            assert_eq!(e.email_address.as_str(), "a@b.com");
            assert_eq!(e.account_id, account.id());
        }
        other => panic!("unexpected event {:?}", other),
    }
}

#[test]
fn deposit_over_ceiling_is_rejected() {
    // A deposit that would push the balance over the ceiling is rejected,
    // the balance is unchanged, and no event is appended.
    let mut account = BankAccount::from_domains(email("a@b.com"), name("Taro", "Yamada"));
    account.deposit_money(99_999_999, 100_000_000).unwrap();
    let r = account.deposit_money(2, 100_000_000);
    assert_eq!(
        r,
        Err(DomainError::BankAccountError(BankAccountError::DepositExceedLimitError {
            limit: 100_000_000,
            amount: 2,
            exceed_balance: 100_000_001,
        }))
    );
    assert_eq!(account.balance(), 99_999_999);
    assert!(account.take_events().is_empty());
}

#[test]
fn withdrawal_of_full_balance_is_rejected() {
    // A withdrawal of the full balance or more is rejected, the balance is
    // unchanged, and no event is appended.
    let mut account = BankAccount::from_domains(email("a@b.com"), name("Taro", "Yamada"));
    account.deposit_money(500, 100_000_000).unwrap();
    let r = account.withdraw_money(500);
    assert_eq!(
        r,
        Err(DomainError::BankAccountError(BankAccountError::WithdrawExceedBalanceError {
            amount: 500,
            balance: 500,
        }))
    );
    assert_eq!(account.balance(), 500);
    assert!(account.take_events().is_empty());

    let smaller = account.withdraw_money(499);
    assert_eq!(smaller, Ok(()));
    assert_eq!(account.balance(), 1);
}

#[test]
fn write_check_keeps_pre_check_balance_in_event() {
    let mut account = BankAccount::from_domains(email("a@b.com"), name("Taro", "Yamada"));
    account.deposit_money(1_000, 100_000_000).unwrap();
    account.write_check(300, "check-1".to_owned()).unwrap();
    assert_eq!(account.balance(), 700);
    let events = account.take_events();
    assert_eq!(events.len(), 1);
    match &events[0] {
        BankAccountEvent::CustomerWroteCheckEvent(e) => {
            assert_eq!(e.amount, 300);
            assert_eq!(e.balance, 1_000);
            assert_eq!(e.check_number, "check-1");
        }
        other => panic!("unexpected event {:?}", other),
    }
}

#[test]
fn write_check_over_balance_is_rejected() {
    let mut account = BankAccount::from_domains(email("a@b.com"), name("Taro", "Yamada"));
    account.deposit_money(100, 100_000_000).unwrap();
    let r = account.write_check(100, "check-2".to_owned());
    assert_eq!(
        r,
        Err(DomainError::BankAccountError(BankAccountError::CheckExceedBalanceError {
            amount: 100,
            balance: 100,
        }))
    );
    assert_eq!(account.balance(), 100);
    assert!(account.take_events().is_empty());
}

#[test]
fn from_primitives_builds_fresh_account() {
    let account =
        BankAccount::from_primitives("a@b.com".to_owned(), "Taro".to_owned(), "Yamada".to_owned())
            .unwrap();
    assert!(!account.opened());
    assert_eq!(account.balance(), 0);
    assert_eq!(account.email_address().as_str(), "a@b.com");
    assert_eq!(account.account_name().first_name(), "Taro");

    let bad = BankAccount::from_primitives(
        "nonsense".to_owned(),
        "Taro".to_owned(),
        "Yamada".to_owned(),
    );
    assert!(matches!(bad, Err(DomainError::DomainParseError(_))));
}

#[test]
fn atm_charge_and_withdraw() {
    let mut atm = Atm::from_primitives("Shibuya".to_owned(), 10_000).unwrap();
    assert_eq!(atm.location().as_str(), "Shibuya");
    assert_eq!(atm.total_cash(), 10_000);
    atm.charge_cash(500).unwrap();
    assert_eq!(atm.total_cash(), 10_500);
    atm.withdraw(10_499).unwrap();
    assert_eq!(atm.total_cash(), 1);
}

#[test]
fn atm_withdrawal_of_full_reserve_is_rejected() {
    let mut atm = Atm::from_domains(AtmLocation::new("Ueno".to_owned()), 700);
    let r = atm.withdraw(700);
    assert_eq!(
        r,
        Err(DomainError::AtmError(AtmError::CannotWithdrawError {
            total_cash: 700,
            withdraw_amount: 700,
        }))
    );
    assert_eq!(atm.total_cash(), 700);
}

#[test]
fn account_name_parses_two_words() {
    let n = AccountName::try_from("Taro Yamada".to_owned()).unwrap();
    assert_eq!(n.first_name(), "Taro");
    assert_eq!(n.last_name(), "Yamada");

    let padded = AccountName::try_from("  Taro \t Yamada \n".to_owned()).unwrap();
    assert_eq!(padded.first_name(), "Taro");
    assert_eq!(padded.last_name(), "Yamada");

    assert!(matches!(
        AccountName::try_from("Taro".to_owned()),
        Err(DomainError::DomainParseError(ref m)) if m == "invalid account name"
    ));
    assert!(matches!(
        AccountName::try_from("Taro Yamada Smith".to_owned()),
        Err(DomainError::DomainParseError(_))
    ));
}
