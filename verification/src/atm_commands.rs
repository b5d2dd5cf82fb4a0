//! Commands of the ATM aggregate.

use crate::atm::AtmLocation;
use crate::id::CommandId;
use vstd::prelude::*;

verus! {

/// Register a new ATM.
#[derive(Debug, Clone)]
pub struct RegisterAtmCommand {
    pub location: AtmLocation,
    pub total_cash: u64,
}

/// Register a new ATM, borrowing its location: the serialization-side
/// mirror of [`RegisterAtmCommand`].
#[derive(Debug, Clone)]
pub struct RegisterAtmRefCommand<'a> {
    pub location: &'a AtmLocation,
    pub total_cash: u64,
}

/// Any command of the ATM aggregate, tagged with the caller's command
/// identifier.
#[derive(Debug, Clone)]
pub enum AtmCommand {
    RegisterAtmCommand(RegisterAtmCommand, CommandId),
}

impl AtmCommand {
    /// The command identifier this command was tagged with.
    pub open spec fn spec_id(&self) -> CommandId {
        match *self {
            AtmCommand::RegisterAtmCommand(_, id) => id,
        }
    }

    /// The command identifier this command was tagged with.
    pub fn id(&self) -> (r: CommandId)
        ensures
            r == self.spec_id(),
    {
        match self {
            AtmCommand::RegisterAtmCommand(_, id) => *id,
        }
    }
}

/// Any borrowed ATM command: the serialization-side mirror of
/// [`AtmCommand`].
#[derive(Debug, Clone)]
pub enum AtmRefCommand<'a> {
    RegisterAtmCommand(RegisterAtmRefCommand<'a>, CommandId),
}

} // verus!
