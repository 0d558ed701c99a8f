use vstd::prelude::*;
use vstd::string::*;

verus! {

/// The ways an operation on the task store can fail.
#[derive(Debug)]
pub enum Error {
    /// No task has this id.
    NotFound(i64),
    /// A task is created without a name.
    MissingName,
    /// Every id a task can carry has been handed out.
    IdsExhausted,
    /// The storage engine failed; the text is its own account.
    Storage(String),
    /// The directory of the frontend does not exist.
    RootNotFound(String),
}

/// The class a failure belongs to.
#[derive(Clone, Copy, Debug, PartialEq, Eq, Structural)]
pub enum ErrorKind {
    NotFound,
    Validation,
    Storage,
    Configuration,
}

pub open spec fn kind_of(e: Error) -> ErrorKind {
    match e {
        Error::NotFound(_) => ErrorKind::NotFound,
        Error::MissingName => ErrorKind::Validation,
        Error::IdsExhausted => ErrorKind::Storage,
        Error::Storage(_) => ErrorKind::Storage,
        Error::RootNotFound(_) => ErrorKind::Configuration,
    }
}

pub open spec fn root_not_found_text(dir: Seq<char>) -> Seq<char> {
    "Server failed to start. Root directory "@ + dir + " does not exist."@
}

/// The account of a failure that `message` gives.
pub open spec fn error_text(e: Error) -> Seq<char> {
    match e {
        Error::NotFound(_) => "Task not found."@,
        Error::MissingName => "Task name is required."@,
        Error::IdsExhausted => "No task id is left to assign."@,
        Error::Storage(m) => m@,
        Error::RootNotFound(d) => root_not_found_text(d@),
    }
}

impl Error {
    /// The failure's kind.
    pub fn kind(&self) -> (r: ErrorKind)
        ensures
            r == kind_of(*self),
    {
        match self {
            Error::NotFound(_) => ErrorKind::NotFound,
            Error::MissingName => ErrorKind::Validation,
            Error::IdsExhausted => ErrorKind::Storage,
            Error::Storage(_) => ErrorKind::Storage,
            Error::RootNotFound(_) => ErrorKind::Configuration,
        }
    }

    /// A human-readable account of the failure.
    pub fn message(&self) -> (r: String)
        ensures
            r@ == error_text(*self),
    {
        match self {
            Error::NotFound(_) => String::from_str("Task not found."),
            Error::MissingName => String::from_str("Task name is required."),
            Error::IdsExhausted => String::from_str("No task id is left to assign."),
            Error::Storage(m) => m.clone(),
            Error::RootNotFound(d) => {
                let mut r = String::from_str("Server failed to start. Root directory ");
                r.append(d.as_str());
                r.append(" does not exist.");
                r
            },
        }
    }
}

} // verus!
