//! Command handlers of the ATM aggregate: the register handler and the
//! composite handler that guards it with a deduplication cache.

use crate::atm;
use crate::atm::Atm;
use crate::atm_commands::{AtmCommand, RegisterAtmCommand};
use crate::atm_events::AtmEvents;
use crate::command::HandleCommand;
use crate::dedup::{dedup_capacity, dedup_ids, dedup_step, DedupCache};
use crate::error::ApplicationError;
use crate::id::CommandId;
use crate::repositories::{AtmRepository, Transaction};
use vstd::prelude::*;

verus! {

/// Handles [`RegisterAtmCommand`]: builds a fresh ATM and saves it inside
/// one transaction.
pub struct RegisterAtmCommandHandler<R: AtmRepository> {
    pub repo: R,
    pub pool: <R::Transaction as Transaction>::Pool,
}

impl<R: AtmRepository> RegisterAtmCommandHandler<R> {
    /// Wires the handler to a repository and a transaction pool.
    pub fn new(repo: R, pool: <R::Transaction as Transaction>::Pool) -> (r: Self)
        ensures
            r.repo == repo,
            r.pool == pool,
    {
        Self { repo, pool }
    }
}

impl<R: AtmRepository> HandleCommand for RegisterAtmCommandHandler<R> {
    type Command = RegisterAtmCommand;

    type Aggregate = Atm;

    /// On success, exactly one fresh ATM was stored, with the command's
    /// location and cash, and no events are returned: registering an ATM
    /// raises none. On an infrastructure failure the store holds either the
    /// old records or, when only the commit failed, also the new ATM.
    open spec fn handle_post(
        pre: Self,
        post: Self,
        command: RegisterAtmCommand,
        r: Result<Vec<AtmEvents>, ApplicationError>,
    ) -> bool {
        let stored0 = pre.repo.stored();
        match r {
            Ok(events) => events@ == Seq::<AtmEvents>::empty() && exists|atm_id: crate::atm::AtmId|
                post.repo.stored() == #[trigger] stored0.insert(
                    atm_id.spec_value(),
                    atm::Model {
                        id: atm_id,
                        location: command.location,
                        total_cash: command.total_cash,
                    },
                ),
            Err(e) => e matches ApplicationError::OtherInfraError(_) && (post.repo.stored()
                == stored0 || exists|atm_id: crate::atm::AtmId|
                post.repo.stored() == #[trigger] stored0.insert(
                    atm_id.spec_value(),
                    atm::Model {
                        id: atm_id,
                        location: command.location,
                        total_cash: command.total_cash,
                    },
                )),
        }
    }

    open spec fn allow_duplicate_spec() -> bool {
        false
    }

    fn handle_command(&mut self, command: RegisterAtmCommand) -> (r: Result<
        Vec<AtmEvents>,
        ApplicationError,
    >) {
        let transaction = match <R::Transaction as Transaction>::begin(&self.pool) {
            Ok(t) => t,
            Err(e) => {
                return Err(ApplicationError::from(e));
            },
        };
        let RegisterAtmCommand { location, total_cash } = command;

        let mut atm = Atm::from_domains(location, total_cash);
        let ghost new_id = atm@.id;
        let events = atm.take_events();

        match self.repo.save(atm, Some(&transaction)) {
            Ok(()) => {},
            Err(e) => {
                return Err(ApplicationError::from(e));
            },
        }
        match transaction.commit() {
            Ok(()) => {},
            Err(e) => {
                proof {
                    let inserted = self.repo.stored();
                    assert(inserted == old(self).repo.stored().insert(
                        new_id.spec_value(),
                        atm::Model {
                            id: new_id,
                            location: command.location,
                            total_cash: command.total_cash,
                        },
                    ));
                }
                return Err(ApplicationError::from(e));
            },
        }
        proof {
            assert(self.repo.stored() == old(self).repo.stored().insert(
                new_id.spec_value(),
                atm::Model {
                    id: new_id,
                    location: command.location,
                    total_cash: command.total_cash,
                },
            ));
        }
        Ok(events)
    }

    fn allow_duplicate(&self) -> (r: bool) {
        false
    }
}

/// The composite ATM command handler: guards the injected register handler
/// with one bounded deduplication cache, so retried registrations take
/// effect exactly once within the cache's window.
pub struct AtmCommandHandler<RH> {
    pub register_command_handler: RH,
    pub command_id_cache: DedupCache,
}

impl<RH> AtmCommandHandler<RH> where
    RH: HandleCommand<Command = RegisterAtmCommand, Aggregate = Atm>,
 {
    /// Records the command identifier and reports whether it was already in
    /// the deduplication window. The check and the insert form one step, so
    /// two submissions of one identifier cannot both pass as new.
    fn check_command_duplicate(&mut self, id: CommandId) -> (r: bool)
        ensures
            ({
                let (ids, duplicate) = dedup_step(
                    dedup_ids(&old(self).command_id_cache),
                    dedup_capacity(&old(self).command_id_cache),
                    id.spec_value(),
                );
                &&& r == duplicate
                &&& dedup_ids(&final(self).command_id_cache) == ids
                &&& dedup_capacity(&final(self).command_id_cache) == dedup_capacity(
                    &old(self).command_id_cache,
                )
            }),
            final(self).register_command_handler == old(self).register_command_handler,
    {
        self.command_id_cache.check_and_record(id.value())
    }

    /// How one handled command relates the composite's state before (`pre`)
    /// and after (`post`) the call to the command and its result: the
    /// command's identifier is recorded in the deduplication window; a
    /// duplicate succeeds with zero effect (unless the handler allows
    /// duplicates); otherwise the register handler's own relation holds.
    pub open spec fn dispatch_post(
        pre: Self,
        post: Self,
        command: AtmCommand,
        r: Result<(), ApplicationError>,
    ) -> bool {
        let (ids, duplicate) = dedup_step(
            dedup_ids(&pre.command_id_cache),
            dedup_capacity(&pre.command_id_cache),
            command.spec_id().spec_value(),
        );
        &&& dedup_ids(&post.command_id_cache) == ids
        &&& dedup_capacity(&post.command_id_cache) == dedup_capacity(&pre.command_id_cache)
        &&& match command {
            AtmCommand::RegisterAtmCommand(cmd, _) => {
                if duplicate && !RH::allow_duplicate_spec() {
                    post.register_command_handler == pre.register_command_handler && r matches Ok(
                        (),
                    )
                } else {
                    exists|events: Vec<AtmEvents>|
                        RH::handle_post(
                            pre.register_command_handler,
                            post.register_command_handler,
                            cmd,
                            #[trigger] result_with_events(r, events),
                        )
                }
            },
        }
    }

    /// Executes one ATM command: records its identifier, rejects a
    /// duplicate as a success with zero effect (unless the handler allows
    /// duplicates), and otherwise delegates to the register handler. ATM
    /// commands raise no events, so nothing is handed to an event bus.
    pub fn handle_command(&mut self, command: AtmCommand) -> (r: Result<(), ApplicationError>)
        ensures
            Self::dispatch_post(*old(self), *final(self), command, r),
    {
        match command {
            AtmCommand::RegisterAtmCommand(cmd, id) => {
                let outcome = if !self.check_command_duplicate(id) {
                    self.register_command_handler.handle_command(cmd)
                } else if self.register_command_handler.allow_duplicate() {
                    self.register_command_handler.handle_command(cmd)
                } else {
                    return Ok(());
                };
                match outcome {
                    Ok(events) => {
                        proof {
                            assert(RH::handle_post(
                                old(self).register_command_handler,
                                self.register_command_handler,
                                cmd,
                                result_with_events(Ok(()), events),
                            ));
                        }
                        Ok(())
                    },
                    Err(e) => {
                        proof {
                            let witness = vstd::pervasive::arbitrary::<Vec<AtmEvents>>();
                            assert(RH::handle_post(
                                old(self).register_command_handler,
                                self.register_command_handler,
                                cmd,
                                result_with_events(Err(e), witness),
                            ));
                        }
                        Err(e)
                    },
                }
            },
        }
    }
}

/// The result `r` with its success value replaced by `events`: relates the
/// composite handler's unit result to the register handler's event list.
pub open spec fn result_with_events(
    r: Result<(), ApplicationError>,
    events: Vec<AtmEvents>,
) -> Result<Vec<AtmEvents>, ApplicationError> {
    match r {
        Ok(()) => Ok(events),
        Err(e) => Err(e),
    }
}

} // verus!
