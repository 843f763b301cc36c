//! What a module initializer and a function called from JavaScript see.

use vstd::prelude::*;
use crate::napi::{Env, Handle};
use crate::napi::errors::NapiErr;
use crate::napi::types::{NapiBoolean, NapiObject, NapiRef, NapiType, NapiValue};

verus! {

// ===== INIT CONTEXT ==========================================================

/// What a module initializer sees: the module's `exports` object.
#[derive(Debug)]
pub struct InitContext {
    pub exports: Handle,
}

impl InitContext {
    /// The context of an initializer given `exports`.
    pub fn new(exports: Handle) -> (c: InitContext)
        ensures
            c.exports == exports,
    {
        InitContext { exports }
    }

    /// The module's `exports` object.
    pub fn exports(&self) -> (r: NapiRef<NapiObject>)
        ensures
            r.value.handle == self.exports,
    {
        NapiRef { value: NapiObject::new(self.exports) }
    }
}

/// The environment an initializer runs in.
#[derive(Debug)]
pub struct InitEnv {
    pub env: Env,
}

impl InitEnv {
    /// The environment `env`.
    pub fn new(env: Env) -> (e: InitEnv)
        ensures
            e.env == env,
    {
        InitEnv { env }
    }

    /// The N-API environment.
    pub fn napi_env(&self) -> (e: Env)
        ensures
            e == self.env,
    {
        self.env
    }
}

/// Registers a module: the outcome of its initializer becomes the value
/// handed back to NodeJS (its exports), or the value to throw.
pub fn register_module<T: NapiType>(result: Result<NapiRef<T>, NapiErr>) -> (r: Result<Handle, Handle>)
    ensures
        result matches Ok(exports) ==> r == Ok::<Handle, Handle>(exports.value.handle_spec()),
        result matches Err(e) ==> r == Err::<Handle, Handle>(e.handle),
{
    match result {
        Ok(exports) => Ok(exports.napi_handle()),
        Err(e) => Err(e.into_handle()),
    }
}

// ===== FUNCTION CONTEXT ======================================================

/// What a function called from JavaScript sees: its `this` and arguments.
#[derive(Debug)]
pub struct FunctionContext {
    pub this: Handle,
    pub args: Vec<Handle>,
}

impl FunctionContext {
    /// The context of a call on `this` with `args`.
    pub fn new(this: Handle, args: Vec<Handle>) -> (c: FunctionContext)
        ensures
            c.this == this,
            c.args@ == args@,
    {
        FunctionContext { this, args }
    }

    /// The `this` of the call, untyped.
    pub fn this(&self) -> (r: NapiRef<NapiValue>)
        ensures
            r.value.handle == self.this,
            r.value.type_of is None,
    {
        NapiRef { value: NapiValue::from_handle(self.this) }
    }

    /// The number of arguments.
    pub fn argc(&self) -> (n: usize)
        ensures
            n == self.args.len(),
    {
        self.args.len()
    }

    /// The argument at `i`, untyped.
    pub fn arg(&self, i: usize) -> (r: NapiRef<NapiValue>)
        requires
            i < self.args.len(),
        ensures
            r.value.handle == self.args@[i as int],
            r.value.type_of is None,
    {
        NapiRef { value: NapiValue::from_handle(self.args[i]) }
    }

    /// All arguments, in order, untyped.
    pub fn args(&self) -> (r: Vec<NapiRef<NapiValue>>)
        ensures
            r.len() == self.args.len(),
            forall|i: int|
                0 <= i < r.len() ==> (#[trigger] r@[i]).value.handle == self.args@[i]
                    && r@[i].value.type_of is None,
    {
        let mut r: Vec<NapiRef<NapiValue>> = Vec::new();
        let n = self.args.len();
        let mut i: usize = 0;
        while i < n
            invariant
                n == self.args.len(),
                i <= n,
                r.len() == i,
                forall|k: int|
                    0 <= k < i ==> (#[trigger] r@[k]).value.handle == self.args@[k]
                        && r@[k].value.type_of is None,
            decreases n - i,
        {
            r.push(NapiRef { value: NapiValue::from_handle(self.args[i]) });
            i = i + 1;
        }
        r
    }
}

// ===== NAPI ==================================================================

/// The N-API environment of the current call.
#[derive(Debug)]
pub struct Napi {}

impl Napi {
    /// A `boolean` of the value `value`, by the handle `napi_get_boolean`
    /// gave for it.
    pub fn boolean(&self, handle: Handle, value: bool) -> (b: NapiBoolean)
        ensures
            b.handle == handle,
            b.value == value,
    {
        NapiBoolean::new(handle, value)
    }
}

} // verus!
