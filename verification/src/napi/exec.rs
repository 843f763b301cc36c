//! Entering Rust from NodeJS: which environment the thread works in, and
//! what a callback's end becomes for JavaScript.

use vstd::prelude::*;
use crate::napi::{Env, Handle};
use crate::napi::errors::panic_message;

verus! {

/// The N-API environment the current thread works in; the null address
/// when none is bound.
#[derive(Debug)]
pub struct ThreadEnv {
    pub env: Env,
}

impl ThreadEnv {
    /// A thread with no environment bound.
    pub fn new() -> (t: ThreadEnv)
        ensures
            t.env.raw == 0,
    {
        ThreadEnv { env: Env { raw: 0 } }
    }

    /// Binds `env` for a call from NodeJS, returning the environment bound
    /// before it (calls may nest: Node, Rust, Node, Rust, ...).
    pub fn bind(&mut self, env: Env) -> (previous: Env)
        ensures
            previous == old(self).env,
            final(self).env == env,
    {
        let previous = self.env;
        self.env = env;
        previous
    }

    /// Restores the environment bound before a call, once it returned.
    pub fn restore(&mut self, previous: Env)
        ensures
            final(self).env == previous,
    {
        self.env = previous;
    }

    /// The environment bound, if any.
    pub fn current(&self) -> (e: Option<Env>)
        ensures
            self.env.raw == 0 ==> e is None,
            self.env.raw != 0 ==> e == Some(self.env),
    {
        if self.env.raw == 0 {
            None
        } else {
            Some(self.env)
        }
    }
}

/// How a callback from NodeJS ended: with a value to return or one to
/// throw, or with a panic (carrying its message when that was a string).
#[derive(Debug)]
pub enum CallbackEnd {
    Finished(Result<Handle, Handle>),
    Panicked(Option<String>),
}

/// What NodeJS is given for a callback's end.
#[derive(Debug)]
pub enum ExecReply {
    /// Return this value.
    Return(Handle),
    /// Throw this value.
    Throw(Handle),
    /// Throw a new JavaScript `Error` with this message.
    ThrowError(String),
}

/// What a callback's end becomes: a value is returned, an error value is
/// thrown, and a panic is thrown as an `Error` whose message is
/// `"PANIC: "` and the panic's message (`"PANIC: Unknown error"` when it
/// carried none).
pub fn exec_reply(end: CallbackEnd) -> (r: ExecReply)
    ensures
        end matches CallbackEnd::Finished(Ok(h)) ==> r == ExecReply::Return(h),
        end matches CallbackEnd::Finished(Err(h)) ==> r == ExecReply::Throw(h),
        end matches CallbackEnd::Panicked(Some(m)) ==> (r matches ExecReply::ThrowError(t) && t@
            == "PANIC: "@ + m@),
        end matches CallbackEnd::Panicked(None) ==> (r matches ExecReply::ThrowError(t) && t@
            == "PANIC: Unknown error"@),
{
    match end {
        CallbackEnd::Finished(Ok(h)) => ExecReply::Return(h),
        CallbackEnd::Finished(Err(h)) => ExecReply::Throw(h),
        CallbackEnd::Panicked(Some(m)) => ExecReply::ThrowError(panic_message(Some(m.as_str()))),
        CallbackEnd::Panicked(None) => ExecReply::ThrowError(panic_message(None)),
    }
}

} // verus!
