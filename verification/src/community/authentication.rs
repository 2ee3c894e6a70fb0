//! Authentication Module

use vstd::prelude::*;

verus! {

/// Ghost model of an [`AuthenticationKey`].
pub ghost struct AuthenticationKeyV {
    /// Key id
    pub id: u16,
    /// Key name text
    pub name: Seq<char>,
    /// Key role text
    pub role: Seq<char>,
    /// Key expiration text
    pub expiration: Option<Seq<char>>,
}

/// Authentication Keys
#[derive(Debug, PartialEq)]
pub struct AuthenticationKey {
    /// Key Id
    pub id: u16,
    /// Key Name
    pub name: String,
    /// Key Role
    pub role: String,
    /// Key Expiration (Optional)
    pub expiration: Option<String>,
}

impl View for AuthenticationKey {
    type V = AuthenticationKeyV;

    open spec fn view(&self) -> AuthenticationKeyV {
        AuthenticationKeyV {
            id: self.id,
            name: self.name@,
            role: self.role@,
            expiration: self.expiration.deep_view(),
        }
    }
}

/// Authentication Structure
#[derive(Debug, PartialEq)]
pub struct Authentication {}

impl Authentication {
    /// Return list of configured API Keys: a deliberate placeholder that
    /// performs no network call and reports the operation as not
    /// implemented.
    pub fn keys() -> (r: Result<Vec<AuthenticationKey>, String>)
        ensures
            r is Err,
            r->Err_0@ == "Notimplemented"@,
    {
        Err(String::from_str("Notimplemented"))
    }

    /// Create a new Authentication key: a deliberate placeholder that
    /// performs no network call and reports the operation as not
    /// implemented.
    pub fn create(key: AuthenticationKey) -> (r: Result<AuthenticationKey, String>)
        ensures
            r is Err,
            r->Err_0@ == "Not Implemented"@,
    {
        let _ = key;
        Err(String::from_str("Not Implemented"))
    }

    /// Delete an authentication key: a deliberate placeholder that performs
    /// no network call and reports the operation as not implemented.
    pub fn delete(key: AuthenticationKey) -> (r: Result<(), String>)
        ensures
            r is Err,
            r->Err_0@ == "Not implemented"@,
    {
        let _ = key;
        Err(String::from_str("Not implemented"))
    }
}

} // verus!
