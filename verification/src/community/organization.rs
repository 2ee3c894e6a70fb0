//! Organization Module
//!
//! This module handles management of organizations within Grafana

use vstd::prelude::*;

use crate::common::cloning::clone_opt_string;

verus! {

/// Ghost model of an [`Organization`] API value.
pub ghost struct OrganizationV {
    /// Organization name text
    pub name: Option<Seq<char>>,
    /// Basic-auth user text
    pub user: Option<Seq<char>>,
    /// Basic-auth password text
    pub pass: Option<Seq<char>>,
}

/// Organization Struct
#[derive(Debug, PartialEq)]
pub struct Organization {
    name: Option<String>,
    user: Option<String>,
    pass: Option<String>,
}

impl View for Organization {
    type V = OrganizationV;

    closed spec fn view(&self) -> OrganizationV {
        OrganizationV {
            name: self.name.deep_view(),
            user: self.user.deep_view(),
            pass: self.pass.deep_view(),
        }
    }
}

impl Clone for Organization {
    /// Clones are equal to the original, field for field.
    fn clone(&self) -> (r: Self)
        ensures
            r@ == self@,
    {
        Organization {
            name: clone_opt_string(&self.name),
            user: clone_opt_string(&self.user),
            pass: clone_opt_string(&self.pass),
        }
    }
}

impl Organization {
    /// The view of a freshly constructed Organization API: nothing set.
    pub open spec fn spec_new() -> OrganizationV {
        OrganizationV { name: None, user: None, pass: None }
    }

    /// Create empty instance of organization
    pub fn new() -> (o: Organization)
        ensures
            o@ == Organization::spec_new(),
    {
        Organization { name: None, user: None, pass: None }
    }

    /// Set the name of the organisation to be created
    pub fn create(self, name: String) -> (o: Organization)
        ensures
            o@ == (OrganizationV { name: Some(name@), ..self@ }),
    {
        Organization { name: Some(name), ..self }
    }

    /// Set User for Basic Authentication
    pub fn with_user(self, user: String) -> (o: Organization)
        ensures
            o@ == (OrganizationV { user: Some(user@), ..self@ }),
    {
        Organization { user: Some(user), ..self }
    }

    /// Set Password for Basic Authentication
    pub fn with_pass(self, pass: String) -> (o: Organization)
        ensures
            o@ == (OrganizationV { pass: Some(pass@), ..self@ }),
    {
        Organization { pass: Some(pass), ..self }
    }

    /// Send organization to Grafana: without both basic-auth credentials
    /// the request is refused outright, and with them the operation is a
    /// deliberate placeholder that performs no network call.
    pub fn send(&self) -> (r: Result<String, String>)
        ensures
            r is Err,
            self@.user is None || self@.pass is None ==> r->Err_0@
                == "Basic Auth Credentials not set"@,
            self@.user is Some && self@.pass is Some ==> r->Err_0@
                == "Org Create: Not implemented"@,
    {
        if self.user.is_none() || self.pass.is_none() {
            return Err(String::from_str("Basic Auth Credentials not set"));
        }
        Err(String::from_str("Org Create: Not implemented"))
    }
}

} // verus!
