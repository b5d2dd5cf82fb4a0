//! Generic identifiers for aggregates and commands.

use vstd::prelude::*;

verus! {

/// A generic 128-bit identifier, tagged by the phantom type `T` so that ids
/// of different kinds cannot be confused.
///
/// The identifier holds the raw value of a version-4 UUID.
#[derive(Debug)]
pub struct Id<T> {
    value: u128,
    marker: core::marker::PhantomData<T>,
}

impl<T> Id<T> {
    /// The raw 128-bit value of this identifier.
    pub closed spec fn spec_value(&self) -> u128 {
        self.value
    }

    /// Generates a fresh random identifier.
    ///
    /// Relies on `uuid::Uuid::new_v4`: the result is random, so nothing is
    /// promised of its value.
    #[verifier::external_body]
    pub fn generate() -> Self {
        Self { value: uuid::Uuid::new_v4().as_u128(), marker: core::marker::PhantomData }
    }

    /// Builds an identifier from a raw 128-bit value.
    pub fn from_value(value: u128) -> (r: Self)
        ensures
            r.spec_value() == value,
    {
        Self { value, marker: core::marker::PhantomData }
    }

    /// The raw 128-bit value of this identifier.
    pub fn value(&self) -> (r: u128)
        ensures
            r == self.spec_value(),
    {
        self.value
    }
}

impl<T> Clone for Id<T> {
    fn clone(&self) -> (r: Self)
        ensures
            r == *self,
    {
        Self { value: self.value, marker: core::marker::PhantomData }
    }
}

impl<T> Copy for Id<T> {

}

impl<T> PartialEq for Id<T> {
    fn eq(&self, other: &Self) -> (r: bool) {
        self.value == other.value
    }
}

impl<T> vstd::std_specs::cmp::PartialEqSpecImpl for Id<T> {
    open spec fn obeys_eq_spec() -> bool {
        true
    }

    open spec fn eq_spec(&self, other: &Self) -> bool {
        self.spec_value() == other.spec_value()
    }
}

impl<T> Eq for Id<T> {

}

/// Phantom tag for command identifiers.
#[derive(Debug, Clone, Copy, PartialEq, Eq, Structural)]
pub struct CommandIdType;

/// The identifier a caller attaches to a command so that retried submissions
/// can be told apart from new requests.
pub type CommandId = Id<CommandIdType>;

/// Two identifiers of one kind with the same raw value are the same
/// identifier.
pub proof fn lemma_id_ext<T>(a: Id<T>, b: Id<T>)
    requires
        a.spec_value() == b.spec_value(),
    ensures
        a == b,
{
}

} // verus!
