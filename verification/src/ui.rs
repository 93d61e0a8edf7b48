//! Page template values and the response value the handlers produce.
//!
//! A page template is rendered outside the library; the types here carry
//! the fields a template is rendered with.  `HomePage` and `ChartsPage`
//! have none, `ErrorPage` carries the status code and message of a
//! classified failure.

use vstd::prelude::*;

verus! {

/// The home page template; it is rendered with no fields.
pub struct HomePage {}

/// The charts page template; it is rendered with no fields.
pub struct ChartsPage {}

/// The error page template: a transient value built from a classified
/// failure, rendered once into a response, then discarded.
pub struct ErrorPage {
    pub status_code: u16,
    pub error: String,
}

/// An HTTP response value: a status code and an already-rendered body.
pub struct Response {
    pub status: u16,
    pub body: String,
}

impl ErrorPage {
    /// Turn the page into a plain response: its status code with its
    /// message as the body.  Total: every `ErrorPage` value converts.
    pub fn into_response(self) -> (r: Response)
        ensures
            r.status == self.status_code,
            r.body@ == self.error@,
    {
        Response { status: self.status_code, body: self.error }
    }
}

} // verus!
