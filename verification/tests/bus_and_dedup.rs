//! Tests of the event bus registry and the deduplication cache.

use ddd_cqrs::bank_account::BankAccountId;
use ddd_cqrs::bank_account_event_handlers::BankAccountEventBus;
use ddd_cqrs::bank_account_events::{
    AccountOpenedEvent, BankAccountEvent, CustomerDepositedMoneyEvent,
};
use ddd_cqrs::bank_account::EmailAddress;
use ddd_cqrs::atm::AtmId;
use ddd_cqrs::bus::EventBus;
use ddd_cqrs::dedup::DedupCache;
use ddd_cqrs::id::Id;

fn deposited(n: u64) -> BankAccountEvent {
    BankAccountEvent::CustomerDepositedMoneyEvent(CustomerDepositedMoneyEvent {
        account_id: BankAccountId::from_value(1),
        amount: n,
        balance: n,
        atm_id: AtmId::from_value(2),
    })
}

fn opened() -> BankAccountEvent {
    BankAccountEvent::AccountOpenedEvent(AccountOpenedEvent {
        account_id: BankAccountId::from_value(1),
        email_address: EmailAddress::try_from("a@b.com".to_owned()).unwrap(),
    })
}

#[test]
fn dispatch_reaches_exactly_the_registered_type() {
    // Three subscribers registered for deposits, one for opened accounts:
    // dispatching one deposit event selects the three deposit handles and
    // no opened-account handle, each exactly once.
    let mut bus = EventBus::<u64>::new();
    bus.subscribe::<CustomerDepositedMoneyEvent>(11);
    bus.subscribe::<CustomerDepositedMoneyEvent>(12);
    bus.subscribe::<CustomerDepositedMoneyEvent>(13);
    bus.subscribe::<AccountOpenedEvent>(21);
    let bus = BankAccountEventBus::new(bus);

    let handles = bus.dispatch_event(&deposited(5)).unwrap();
    assert_eq!(handles, &vec![11, 12, 13]);

    let other = bus.dispatch_event(&opened()).unwrap();
    assert_eq!(other, &vec![21]);
}

#[test]
fn dispatch_without_subscribers_selects_none() {
    let bus = BankAccountEventBus::new(EventBus::<u64>::new());
    assert!(bus.dispatch_event(&deposited(1)).is_none());
}

#[test]
fn subscribers_accumulate_in_registration_order() {
    let mut bus = EventBus::<&'static str>::new();
    bus.subscribe_arc::<AccountOpenedEvent>("first");
    bus.subscribe_arc::<AccountOpenedEvent>("second");
    let selected = bus.subscribers_of::<AccountOpenedEvent>().unwrap();
    assert_eq!(selected, &vec!["first", "second"]);
    assert!(bus.subscribers_of::<CustomerDepositedMoneyEvent>().is_none());
}

#[test]
fn dedup_cache_detects_duplicates_in_window() {
    let mut cache = DedupCache::new(8);
    assert!(!cache.check_and_record(41));
    assert!(!cache.check_and_record(42));
    assert!(cache.check_and_record(41));
    assert!(cache.check_and_record(42));
}

#[test]
fn dedup_cache_evicts_least_recently_seen() {
    // Capacity 2: after the three distinct identifiers 1, 2, 3 are seen,
    // the least recently seen one (1) has been evicted and is treated as
    // new on resubmission, while 2 and 3 are still known.
    let mut cache = DedupCache::new(2);
    assert!(!cache.check_and_record(1));
    assert!(!cache.check_and_record(2));
    assert!(!cache.check_and_record(3));
    assert!(!cache.check_and_record(1));
    assert!(cache.check_and_record(3));
}

#[test]
fn id_round_trips_through_raw_value() {
    let id: Id<ddd_cqrs::id::CommandIdType> = Id::from_value(77);
    assert_eq!(id.value(), 77);
    assert_eq!(id, Id::from_value(77));
}

#[test]
fn take_does_not_return_an_event_twice() {
    // push then take then take again: the second take returns an empty
    // sequence, so no event is duplicated across drains.
    let mut list: ddd_cqrs::event_list::DomainEventList<u32> =
        ddd_cqrs::event_list::DomainEventList::new();
    list.push(10);
    list.push(20);
    let first = list.take();
    assert_eq!(first, vec![10, 20]);
    let second = list.take();
    assert!(second.is_empty());
}

#[test]
fn extend_merges_subscriber_lists() {
    let mut first = EventBus::<u64>::new();
    first.subscribe::<AccountOpenedEvent>(1);
    let mut second = EventBus::<u64>::new();
    second.subscribe::<AccountOpenedEvent>(2);
    second.subscribe::<CustomerDepositedMoneyEvent>(3);

    first.extend(second);
    assert_eq!(first.subscribers_of::<AccountOpenedEvent>().unwrap(), &vec![1, 2]);
    assert_eq!(
        first.subscribers_of::<CustomerDepositedMoneyEvent>().unwrap(),
        &vec![3]
    );
}
