//! A command/event backbone for small aggregate-oriented applications.
//!
//! The crate provides:
//! - [`event_list::DomainEventList`], the per-aggregate append/drain buffer;
//! - an event bus ([`bus`]) that routes dispatched events to exactly the
//!   subscribers registered for their event type;
//! - bank-account and ATM aggregates ([`bank_account`], [`atm`]) whose
//!   domain operations enforce the business invariants;
//! - command-handler orchestration ([`bank_account_command_handlers`],
//!   [`atm_command_handler`]) with idempotent execution of retried commands
//!   through a bounded, least-recently-used deduplication cache ([`dedup`]);
//! - the transaction and repository ports ([`repositories`]) the
//!   orchestration consumes, with in-memory implementations
//!   ([`mock_infra`]).

pub mod aggregate;
pub mod atm;
pub mod atm_command_handler;
pub mod atm_commands;
pub mod atm_events;
pub mod bank_account;
pub mod bank_account_command_handlers;
pub mod bank_account_commands;
pub mod bank_account_event_handlers;
pub mod bank_account_events;
pub mod bus;
pub mod command;
pub mod config;
pub mod dedup;
pub mod error;
pub mod event_list;
pub mod id;
pub mod mock_infra;
pub mod repositories;
pub mod subscribe;
