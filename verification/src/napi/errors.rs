//! JavaScript errors met while working with N-API.

use vstd::prelude::*;
use vstd::string::*;
use crate::napi::Handle;
use crate::napi::types::{NapiRef, NapiValue};

verus! {

/// What was learnt of a thrown JavaScript value in order to describe it.
#[derive(Debug)]
pub enum ErrorDetails {
    /// The value is not an `Error`: what it reads as a string.
    NotAnError { coerced: String },
    /// The value is an `Error`: its `message` property, when that is a string.
    IsError { message: Option<String> },
}

/// The message describing a thrown value.
pub open spec fn error_message_spec(details: ErrorDetails) -> Seq<char> {
    match details {
        ErrorDetails::NotAnError { coerced } => coerced@,
        ErrorDetails::IsError { message: Some(m) } => m@,
        ErrorDetails::IsError { message: None } => "Unknown JavaScript Error"@,
    }
}

/// An error message together with the JavaScript value to throw for it.
#[derive(Debug)]
pub struct NapiErr {
    pub message: String,
    pub handle: Handle,
}

impl NapiErr {
    /// An error for `message`, whose JavaScript `Error` (made by
    /// `napi_create_error` from the same message) is `handle`.
    pub fn new(message: &str, handle: Handle) -> (e: NapiErr)
        ensures
            e.message@ == message@,
            e.handle == handle,
    {
        NapiErr { message: String::from_str(message), handle }
    }

    /// An error for a thrown JavaScript value: its message is the `message`
    /// property of an `Error` (`"Unknown JavaScript Error"` when that is not
    /// a string), or any other value as a string.
    pub fn from_handle(handle: Handle, details: ErrorDetails) -> (e: NapiErr)
        ensures
            e.handle == handle,
            e.message@ == error_message_spec(details),
    {
        let message = match details {
            ErrorDetails::NotAnError { coerced } => coerced,
            ErrorDetails::IsError { message: Some(m) } => m,
            ErrorDetails::IsError { message: None } => String::from_str("Unknown JavaScript Error"),
        };
        NapiErr { message, handle }
    }

    /// The JavaScript value of this error.
    pub fn into_handle(self) -> (h: Handle)
        ensures
            h == self.handle,
    {
        self.handle
    }

    /// The message of this error.
    pub fn message(&self) -> (m: &str)
        ensures
            m@ == self.message@,
    {
        self.message.as_str()
    }
}

/// The message of the JavaScript error thrown when a callback panics:
/// `"PANIC: "` followed by the panic's message when it carried a string,
/// `"PANIC: Unknown error"` otherwise.
pub fn panic_message(payload: Option<&str>) -> (m: String)
    ensures
        payload matches Some(p) ==> m@ == "PANIC: "@ + p@,
        payload is None ==> m@ == "PANIC: Unknown error"@,
{
    match payload {
        Some(p) => {
            let mut m = String::from_str("PANIC: ");
            m.append(p);
            m
        },
        None => String::from_str("PANIC: Unknown error"),
    }
}

/// Recovering from a failed N-API operation by looking at the JavaScript
/// value that was thrown.
pub trait NapiCatch<T>: Sized {
    fn catch<F, O: FnOnce(NapiRef<NapiValue>) -> Result<T, F>>(self, op: O) -> Result<T, F>
        requires
            forall|v: NapiRef<NapiValue>| call_requires(op, (v,)),
    ;
}

impl<T> NapiCatch<T> for Result<T, NapiErr> {
    /// Keeps a success; on an error, hands the thrown value (its type not yet
    /// known) to `op` and returns what `op` returns.
    fn catch<F, O: FnOnce(NapiRef<NapiValue>) -> Result<T, F>>(self, op: O) -> (r: Result<T, F>)
        ensures
            self matches Ok(v) ==> r matches Ok(w) && w == v,
            self matches Err(e) ==> call_ensures(
                op,
                (NapiRef { value: NapiValue { handle: e.handle, type_of: None } },),
                r,
            ),
    {
        match self {
            Ok(value) => Ok(value),
            Err(e) => {
                let value = NapiValue::from_handle(e.into_handle());
                op(NapiRef { value })
            },
        }
    }
}

} // verus!
