use vstd::prelude::*;

use crate::error::{error_text, kind_of, Error, ErrorKind};

verus! {

/// The HTTP status that answers a failure of a kind.
pub open spec fn status_for(k: ErrorKind) -> u16 {
    match k {
        ErrorKind::NotFound => 404,
        ErrorKind::Validation => 400,
        ErrorKind::Storage => 500,
        ErrorKind::Configuration => 500,
    }
}

/// The short name of a failure's kind, as an HTTP client sees it.
pub open spec fn kind_text(k: ErrorKind) -> Seq<char> {
    match k {
        ErrorKind::NotFound => "not_found"@,
        ErrorKind::Validation => "validation"@,
        ErrorKind::Storage => "storage"@,
        ErrorKind::Configuration => "configuration"@,
    }
}

/// A failure as the HTTP layer answers it: a kind, a message and a status.
#[derive(Debug)]
pub struct WebError {
    pub typ: &'static str,
    pub message: String,
    pub status: u16,
}

impl WebError {
    /// The answer to a failure of the task store.
    pub fn from_error(e: &Error) -> (r: WebError)
        ensures
            r.typ@ == kind_text(kind_of(*e)),
            r.message@ == error_text(*e),
            r.status == status_for(kind_of(*e)),
    {
        let (typ, status): (&'static str, u16) = match e.kind() {
            ErrorKind::NotFound => ("not_found", 404),
            ErrorKind::Validation => ("validation", 400),
            ErrorKind::Storage => ("storage", 500),
            ErrorKind::Configuration => ("configuration", 500),
        };
        WebError { typ, message: e.message(), status }
    }

    /// The HTTP status of this answer.
    pub fn status_code(&self) -> (r: u16)
        ensures
            r == self.status,
    {
        self.status
    }
}

} // verus!
