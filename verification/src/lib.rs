//! Core of a terminal schedule dashboard: the navigation state machine over a
//! loaded entry collection, the 7-day occupancy projection, the load-time
//! filter, and the pure text artifacts that each frame renders from them.

pub mod decimal;
pub mod entry;
pub mod mux;
pub mod nav;
pub mod occupancy;
pub mod render;
pub mod store;

use vstd::prelude::*;
use vstd::string::StringExecFns;

verus! {

/// Why loading the persisted schedule can fail: the file could not be read,
/// or its content does not parse as the expected shape. Each variant carries
/// the text of the underlying cause.
#[derive(Debug)]
pub enum Error {
    ReadDBError(String),
    ParseDBError(String),
}

/// The message that `Error::describe` yields.
pub open spec fn error_text(e: Error) -> Seq<char> {
    match e {
        Error::ReadDBError(m) => "error reading the DB file: "@ + m@,
        Error::ParseDBError(m) => "error parsing the DB file: "@ + m@,
    }
}

impl Error {
    /// The human-readable message for this error: a fixed prefix naming the
    /// failed step, followed by the cause.
    pub fn describe(&self) -> (r: String)
        ensures
            r@ == error_text(*self),
    {
        match self {
            Error::ReadDBError(m) => "error reading the DB file: ".to_owned().concat(m.as_str()),
            Error::ParseDBError(m) => "error parsing the DB file: ".to_owned().concat(m.as_str()),
        }
    }
}

} // verus!
