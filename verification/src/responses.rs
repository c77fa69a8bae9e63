use vstd::prelude::*;

verus! {

/// An answer that ends a request early: a status code and a line of text.
#[derive(Clone, Debug)]
pub struct ErrorResponse {
    pub status: u16,
    pub error: String,
}

impl ErrorResponse {
    pub fn unauthorized() -> (r: Self)
        ensures
            r.status == 401,
            r.error@ == "Unauthorized"@,
    {
        Self { status: 401, error: "Unauthorized".to_owned() }
    }

    pub fn unimplemented() -> (r: Self)
        ensures
            r.status == 501,
            r.error@ == "Not implemented yet :/"@,
    {
        Self { status: 501, error: "Not implemented yet :/".to_owned() }
    }

    pub fn not_found() -> (r: Self)
        ensures
            r.status == 404,
            r.error@ == "404 - Not found :/"@,
    {
        Self { status: 404, error: "404 - Not found :/".to_owned() }
    }

    /// The text shown for the response: its error line.
    pub fn message(&self) -> (s: String)
        ensures
            s@ == self.error@,
    {
        self.error.clone()
    }
}

} // verus!
