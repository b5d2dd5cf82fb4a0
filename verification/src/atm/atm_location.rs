//! The location entity of an ATM.

use vstd::prelude::*;

verus! {

/// Where an ATM stands, as free-form text.
#[derive(Debug)]
pub struct AtmLocation {
    location: String,
}

impl View for AtmLocation {
    type V = Seq<char>;

    closed spec fn view(&self) -> Seq<char> {
        self.location@
    }
}

impl AtmLocation {
    /// Wraps a location string.
    pub fn new(location: String) -> (r: Self)
        ensures
            r@ == location@,
    {
        Self { location }
    }

    /// The location as a string slice.
    pub fn as_str(&self) -> (r: &str)
        ensures
            r@ == self@,
    {
        self.location.as_str()
    }

    /// Gives the location string back.
    pub fn into_string(self) -> (r: String)
        ensures
            r@ == self@,
    {
        self.location
    }
}

impl Clone for AtmLocation {
    fn clone(&self) -> (r: Self)
        ensures
            r == *self,
    {
        Self { location: self.location.clone() }
    }
}

impl PartialEq for AtmLocation {
    fn eq(&self, other: &Self) -> (r: bool) {
        self.location == other.location
    }
}

impl vstd::std_specs::cmp::PartialEqSpecImpl for AtmLocation {
    open spec fn obeys_eq_spec() -> bool {
        true
    }

    open spec fn eq_spec(&self, other: &Self) -> bool {
        self@ == other@
    }
}

impl Eq for AtmLocation {

}

} // verus!
