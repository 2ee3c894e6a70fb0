//! Error Module
//!
//! Every failing operation of the library reports a [`GrafanaError`]: a
//! textual message paired with a status tag.  Nothing in the library aborts
//! the process; errors are returned to the caller as values.

use vstd::prelude::*;

verus! {

/// Ghost model of a [`GrafanaError`]: the message and status texts.
pub ghost struct GrafanaErrorV {
    /// Error message text
    pub message: Seq<char>,
    /// Error status text
    pub status: Seq<char>,
}

/// Error Structure
#[derive(Debug)]
pub struct GrafanaError {
    /// Error Message
    message: String,
    /// Error Status Code
    status: String,
}

impl View for GrafanaError {
    type V = GrafanaErrorV;

    closed spec fn view(&self) -> GrafanaErrorV {
        GrafanaErrorV { message: self.message@, status: self.status@ }
    }
}

impl GrafanaError {
    /// Create a new instance of GrafanaError passing in a message and status code.
    pub fn new(message: String, status: String) -> (e: GrafanaError)
        ensures
            e@ == (GrafanaErrorV { message: message@, status: status@ }),
    {
        GrafanaError { message, status }
    }

    /// The message text.
    pub fn message(&self) -> (r: &String)
        ensures
            r@ == self@.message,
    {
        &self.message
    }

    /// The status text.
    pub fn status(&self) -> (r: &String)
        ensures
            r@ == self@.status,
    {
        &self.status
    }

    /// One-line rendering of the error, `status : message`.
    pub fn text(&self) -> (r: String)
        ensures
            r@ == self@.status + " : "@ + self@.message,
    {
        let mut r = self.status.clone();
        r.append(" : ");
        r.append(self.message.as_str());
        r
    }
}

} // verus!
