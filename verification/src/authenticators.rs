//! Authenticator capability interface and the verified identity it yields.
//!
//! One authenticator is registered per supported authentication type; each
//! validates the caller-supplied authentication bytes and yields a verified
//! application identity or a failure status. Concrete authenticators are
//! collaborators implemented outside this module.

use crate::requests::ResponseStatus;
use vstd::prelude::*;

verus! {

/// Verified identity of the application behind a request.
#[derive(Debug, Clone, Hash)]
pub struct ApplicationName {
    name: String,
}

impl View for ApplicationName {
    type V = Seq<char>;

    closed spec fn view(&self) -> Seq<char> {
        self.name@
    }
}

impl ApplicationName {
    /// Wraps a name that an authenticator has verified.
    pub fn new(name: String) -> (r: ApplicationName)
        ensures
            r@ == name@,
    {
        ApplicationName { name }
    }

    /// The verified name itself.
    pub fn name(&self) -> (r: &String)
        ensures
            r@ == self@,
    {
        &self.name
    }
}

impl PartialEq for ApplicationName {
    /// Two identities are equal exactly when their names are.
    fn eq(&self, other: &Self) -> (r: bool) {
        self.name == other.name
    }
}

impl vstd::std_specs::cmp::PartialEqSpecImpl for ApplicationName {
    open spec fn obeys_eq_spec() -> bool {
        true
    }

    open spec fn eq_spec(&self, other: &Self) -> bool {
        self@ == other@
    }
}

impl Eq for ApplicationName {}

/// Capability that checks the authentication bytes of a request.
///
/// Implementations decide which credentials to accept; the front end only
/// relies on the shape of the outcome: a verified identity on success, a
/// failure status to echo to the caller otherwise.
pub trait Authenticate {
    /// Validates the authentication bytes of one request.
    fn authenticate(&self, auth: &Vec<u8>) -> Result<ApplicationName, ResponseStatus>;
}

} // verus!
