//! The error type of the whole library.

use vstd::prelude::*;
use vstd::string::*;

verus! {

/// The root of all evil: any error thrown by LibPQ.
#[derive(Debug)]
pub struct PQError {
    pub message: String,
}

/// The message of an error made from an optional message.
pub open spec fn message_or_unknown(message: Option<String>) -> Seq<char> {
    match message {
        Some(m) => m@,
        None => "Unknown error"@,
    }
}

/// The result type for all LibPQ errors.
pub type PQResult<T> = Result<T, PQError>;

impl Clone for PQError {
    fn clone(&self) -> (e: PQError)
        ensures
            e == *self,
    {
        PQError { message: self.message.clone() }
    }
}

impl PQError {
    /// Creates a [`PQError`] holding `message`.
    pub fn from_message(message: String) -> (e: PQError)
        ensures
            e.message@ == message@,
    {
        PQError { message }
    }

    /// Creates a [`PQError`] from a string slice.
    pub fn from_text(message: &str) -> (e: PQError)
        ensures
            e.message@ == message@,
    {
        PQError { message: String::from_str(message) }
    }

    /// Creates a [`PQError`] from an _optional_ message, which defaults to
    /// `"Unknown error"`.
    pub fn from_option(message: Option<String>) -> (e: PQError)
        ensures
            message matches Some(m) ==> e.message@ == m@,
            message is None ==> e.message@ == "Unknown error"@,
    {
        match message {
            Some(message) => PQError { message },
            None => PQError::from_text("Unknown error"),
        }
    }

    /// Creates a [`PQError`] from a connection's own error message (see
    /// `Connection::pq_error_message`).
    pub fn from_connection_message(message: Option<String>) -> (e: PQError)
        ensures
            message matches Some(m) ==> e.message@ == m@,
            message is None ==> e.message@ == "Unknown error"@,
    {
        PQError::from_option(message)
    }

    /// The standard way to display a [`PQError`]: `[LibPQ Error]: <message>`.
    pub fn to_string(&self) -> (s: String)
        ensures
            s@ == "[LibPQ Error]: "@ + self.message@,
    {
        let mut s = String::from_str("[LibPQ Error]: ");
        s.append(self.message.as_str());
        s
    }
}

} // verus!
