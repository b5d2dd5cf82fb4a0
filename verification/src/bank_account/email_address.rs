//! The e-mail address value object.

use crate::error::DomainError;
use vstd::prelude::*;

verus! {

/// Whether a string is a well-formed e-mail address, as the `email_address`
/// crate's RFC 5321/5322 validation defines it. The full rule takes pages to
/// state, so only its name is given; `check_email_address` answers it.
pub uninterp spec fn email_ok(s: Seq<char>) -> bool;

/// Relies on `email_address::EmailAddress::is_valid`: the validation reads
/// the address string alone, so its verdict is a function of the string.
#[verifier::external_body]
fn check_email_address(address: &str) -> (r: bool)
    ensures
        r == email_ok(address@),
{
    email_address::EmailAddress::is_valid(address)
}

/// A validated e-mail address.
///
/// Well-formedness: the held string satisfies [`email_ok`]. The only public
/// constructor, [`EmailAddress::try_from`], establishes it.
#[derive(Debug)]
pub struct EmailAddress {
    address: String,
}

impl View for EmailAddress {
    type V = Seq<char>;

    closed spec fn view(&self) -> Seq<char> {
        self.address@
    }
}

impl EmailAddress {
    /// Well-formedness of this address.
    pub open spec fn wf(&self) -> bool {
        email_ok(self@)
    }

    /// Validates `value` and wraps it: returns the address exactly when the
    /// string is a well-formed e-mail address, and a parse error otherwise.
    pub fn try_from(value: String) -> (r: Result<Self, DomainError>)
        ensures
            email_ok(value@) ==> (r matches Ok(a) && a@ == value@ && a.wf()),
            !email_ok(value@) ==> (r matches Err(e) && e matches DomainError::DomainParseError(m)
                && m@ == "invalid email address"@),
    {
        if check_email_address(value.as_str()) {
            Ok(EmailAddress { address: value })
        } else {
            Err(DomainError::DomainParseError("invalid email address".to_owned()))
        }
    }

    /// The address as a string slice.
    pub fn as_str(&self) -> (r: &str)
        ensures
            r@ == self@,
    {
        self.address.as_str()
    }

    /// Gives the address string back.
    pub fn into_string(self) -> (r: String)
        ensures
            r@ == self@,
    {
        self.address
    }
}

impl Clone for EmailAddress {
    fn clone(&self) -> (r: Self)
        ensures
            r == *self,
    {
        Self { address: self.address.clone() }
    }
}

impl PartialEq for EmailAddress {
    fn eq(&self, other: &Self) -> (r: bool) {
        self.address == other.address
    }
}

impl vstd::std_specs::cmp::PartialEqSpecImpl for EmailAddress {
    open spec fn obeys_eq_spec() -> bool {
        true
    }

    open spec fn eq_spec(&self, other: &Self) -> bool {
        self@ == other@
    }
}

impl Eq for EmailAddress {

}

} // verus!
