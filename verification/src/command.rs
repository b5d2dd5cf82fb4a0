//! The contract every command handler satisfies.

use crate::aggregate::Aggregate;
use crate::error::ApplicationError;
use vstd::prelude::*;

verus! {

/// A handler for one command type of one aggregate.
///
/// `handle_command` performs the whole mutation cycle of one command —
/// open a transaction, load or build the aggregate, apply the domain
/// operation, persist, commit — and returns the domain events the committed
/// mutation raised. Each implementation pins its exact behaviour down in
/// its `handle_post` relation, which ties the handler's state before and
/// after the call to the command and the result.
pub trait HandleCommand: Sized {
    /// The command this handler executes.
    type Command;

    /// The aggregate this handler mutates.
    type Aggregate: Aggregate;

    /// How one handled command relates the handler's state before (`pre`)
    /// and after (`post`) the call to the command and its result.
    spec fn handle_post(
        pre: Self,
        post: Self,
        command: Self::Command,
        r: Result<Vec<<Self::Aggregate as Aggregate>::Event>, ApplicationError>,
    ) -> bool;

    /// Whether a duplicate of an already-seen command may run again. Safe
    /// only for operations that can be repeated without effect.
    spec fn allow_duplicate_spec() -> bool;

    /// Executes the command and returns the raised domain events.
    fn handle_command(&mut self, command: Self::Command) -> (r: Result<
        Vec<<Self::Aggregate as Aggregate>::Event>,
        ApplicationError,
    >)
        ensures
            Self::handle_post(*old(self), *final(self), command, r),
    ;

    /// Whether a duplicate of an already-seen command may run again.
    fn allow_duplicate(&self) -> (r: bool)
        ensures
            r == Self::allow_duplicate_spec(),
    ;
}

} // verus!
