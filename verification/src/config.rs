//! Configuration values the core consumes.

use vstd::prelude::*;

verus! {

/// The balance ceiling used when no other is configured.
pub const DEFAULT_BALANCE_UPPER_LIM: u64 = 100_000_000;

/// Configuration of the command handlers, supplied at construction time so
/// the core can be wired with arbitrary limits.
#[derive(Debug, Clone, Copy, PartialEq, Eq, Structural)]
pub struct Config {
    /// No deposit may raise a balance above this ceiling.
    pub balance_upper_lim: u64,
}

impl Config {
    /// A configuration with the given balance ceiling.
    pub fn new(balance_upper_lim: u64) -> (r: Self)
        ensures
            r.balance_upper_lim == balance_upper_lim,
    {
        Self { balance_upper_lim }
    }
}

impl Default for Config {
    /// The default configuration: a balance ceiling of
    /// [`DEFAULT_BALANCE_UPPER_LIM`].
    fn default() -> (r: Self)
        ensures
            r.balance_upper_lim == DEFAULT_BALANCE_UPPER_LIM,
    {
        Self { balance_upper_lim: DEFAULT_BALANCE_UPPER_LIM }
    }
}

} // verus!
