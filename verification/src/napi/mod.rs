//! A typed view of NodeJS's N-API values.
//!
//! Values live in the JavaScript engine; the library refers to each by a
//! [`Handle`] (the address of its `napi_value`). The calls into N-API are
//! made by the caller, who hands their outcomes (handles, booleans, strings,
//! type tags) to the functions here.

use vstd::prelude::*;
use vstd::string::*;
use crate::text::ascii_lower_all;

pub mod bigint;
pub mod contexts;
pub mod errors;
pub mod exec;
pub mod types;

verus! {

/// A JavaScript value, by the address of its `napi_value`.
///
/// See [`napi_value`](https://nodejs.org/api/n-api.html#napi_value)
#[derive(Debug, Copy, Clone, PartialEq, Eq, Structural)]
pub struct Handle {
    pub raw: usize,
}

/// A NodeJS environment, by the address of its `napi_env`.
///
/// See [`napi_env`](https://nodejs.org/api/n-api.html#napi_env)
#[derive(Debug, Copy, Clone, PartialEq, Eq, Structural)]
pub struct Env {
    pub raw: usize,
}

/// Something that owns resources to release once the JavaScript value it is
/// attached to is garbage collected.
pub trait NapiFinalizable {
    fn finalize(self);
}

/// Wrap the concept of a _JavaScript Type_ as given to us by NodeJS.
///
/// See [`napi_valuetype`](https://nodejs.org/api/n-api.html#napi_valuetype)
#[derive(Debug, Copy, Clone, PartialEq, Eq, Structural)]
pub enum NapiTypeOf {
    /// The JavaScript constant `undefined`.
    Undefined,
    /// The JavaScript constant `null`.
    Null,
    /// The JavaScript type `boolean`.
    Boolean,
    /// The JavaScript type `number`.
    Number,
    /// The JavaScript type `string`.
    String,
    /// The JavaScript type `symbol`.
    Symbol,
    /// The JavaScript type `object`.
    Object,
    /// The JavaScript type `function`.
    Function,
    /// Indicates a native object provided to NodeJS.
    External,
    /// The JavaScript type `bigint`.
    Bigint,
}

impl NapiTypeOf {
    /// N-API's code for this type (`napi_undefined` is 0, ...).
    pub open spec fn code_spec(self) -> u32 {
        match self {
            NapiTypeOf::Undefined => 0,
            NapiTypeOf::Null => 1,
            NapiTypeOf::Boolean => 2,
            NapiTypeOf::Number => 3,
            NapiTypeOf::String => 4,
            NapiTypeOf::Symbol => 5,
            NapiTypeOf::Object => 6,
            NapiTypeOf::Function => 7,
            NapiTypeOf::External => 8,
            NapiTypeOf::Bigint => 9,
        }
    }

    /// N-API's code for this type.
    pub fn code(&self) -> (c: u32)
        ensures
            c == self.code_spec(),
    {
        match self {
            NapiTypeOf::Undefined => 0,
            NapiTypeOf::Null => 1,
            NapiTypeOf::Boolean => 2,
            NapiTypeOf::Number => 3,
            NapiTypeOf::String => 4,
            NapiTypeOf::Symbol => 5,
            NapiTypeOf::Object => 6,
            NapiTypeOf::Function => 7,
            NapiTypeOf::External => 8,
            NapiTypeOf::Bigint => 9,
        }
    }

    /// The type with N-API's code `code` (what `napi_typeof` gave), if there
    /// is one.
    pub fn from_code(code: u32) -> (r: Option<NapiTypeOf>)
        ensures
            code < 10 ==> (r matches Some(t) && t.code_spec() == code),
            code >= 10 ==> r is None,
    {
        match code {
            0 => Some(NapiTypeOf::Undefined),
            1 => Some(NapiTypeOf::Null),
            2 => Some(NapiTypeOf::Boolean),
            3 => Some(NapiTypeOf::Number),
            4 => Some(NapiTypeOf::String),
            5 => Some(NapiTypeOf::Symbol),
            6 => Some(NapiTypeOf::Object),
            7 => Some(NapiTypeOf::Function),
            8 => Some(NapiTypeOf::External),
            9 => Some(NapiTypeOf::Bigint),
            _ => None,
        }
    }

    /// The name of this type (`Bigint`, `Boolean`, ...).
    pub open spec fn name_spec(self) -> Seq<char> {
        match self {
            NapiTypeOf::Undefined => "Undefined"@,
            NapiTypeOf::Null => "Null"@,
            NapiTypeOf::Boolean => "Boolean"@,
            NapiTypeOf::Number => "Number"@,
            NapiTypeOf::String => "String"@,
            NapiTypeOf::Symbol => "Symbol"@,
            NapiTypeOf::Object => "Object"@,
            NapiTypeOf::Function => "Function"@,
            NapiTypeOf::External => "External"@,
            NapiTypeOf::Bigint => "Bigint"@,
        }
    }

    /// The name of this type, as it is displayed.
    pub fn name(&self) -> (s: String)
        ensures
            s@ == self.name_spec(),
    {
        match self {
            NapiTypeOf::Undefined => String::from_str("Undefined"),
            NapiTypeOf::Null => String::from_str("Null"),
            NapiTypeOf::Boolean => String::from_str("Boolean"),
            NapiTypeOf::Number => String::from_str("Number"),
            NapiTypeOf::String => String::from_str("String"),
            NapiTypeOf::Symbol => String::from_str("Symbol"),
            NapiTypeOf::Object => String::from_str("Object"),
            NapiTypeOf::Function => String::from_str("Function"),
            NapiTypeOf::External => String::from_str("External"),
            NapiTypeOf::Bigint => String::from_str("Bigint"),
        }
    }
}

/// Every N-API type has exactly one code, below ten.
pub proof fn type_codes_law(t: NapiTypeOf)
    ensures
        t.code_spec() < 10,
        forall|u: NapiTypeOf| u.code_spec() == t.code_spec() ==> u == t,
{
}

proof fn lemma_napi_undefined()
    ensures
        "napi_undefined"@ == "napi_"@ + ascii_lower_all("Undefined"@),
{
    reveal_strlit("Undefined");
    reveal_strlit("napi_undefined");
    reveal_strlit("napi_");
    assert("napi_undefined"@ =~= "napi_"@ + ascii_lower_all("Undefined"@));
}

proof fn lemma_napi_null()
    ensures
        "napi_null"@ == "napi_"@ + ascii_lower_all("Null"@),
{
    reveal_strlit("Null");
    reveal_strlit("napi_null");
    reveal_strlit("napi_");
    assert("napi_null"@ =~= "napi_"@ + ascii_lower_all("Null"@));
}

proof fn lemma_napi_boolean()
    ensures
        "napi_boolean"@ == "napi_"@ + ascii_lower_all("Boolean"@),
{
    reveal_strlit("Boolean");
    reveal_strlit("napi_boolean");
    reveal_strlit("napi_");
    assert("napi_boolean"@ =~= "napi_"@ + ascii_lower_all("Boolean"@));
}

proof fn lemma_napi_number()
    ensures
        "napi_number"@ == "napi_"@ + ascii_lower_all("Number"@),
{
    reveal_strlit("Number");
    reveal_strlit("napi_number");
    reveal_strlit("napi_");
    assert("napi_number"@ =~= "napi_"@ + ascii_lower_all("Number"@));
}

proof fn lemma_napi_string()
    ensures
        "napi_string"@ == "napi_"@ + ascii_lower_all("String"@),
{
    reveal_strlit("String");
    reveal_strlit("napi_string");
    reveal_strlit("napi_");
    assert("napi_string"@ =~= "napi_"@ + ascii_lower_all("String"@));
}

proof fn lemma_napi_symbol()
    ensures
        "napi_symbol"@ == "napi_"@ + ascii_lower_all("Symbol"@),
{
    reveal_strlit("Symbol");
    reveal_strlit("napi_symbol");
    reveal_strlit("napi_");
    assert("napi_symbol"@ =~= "napi_"@ + ascii_lower_all("Symbol"@));
}

proof fn lemma_napi_object()
    ensures
        "napi_object"@ == "napi_"@ + ascii_lower_all("Object"@),
{
    reveal_strlit("Object");
    reveal_strlit("napi_object");
    reveal_strlit("napi_");
    assert("napi_object"@ =~= "napi_"@ + ascii_lower_all("Object"@));
}

proof fn lemma_napi_function()
    ensures
        "napi_function"@ == "napi_"@ + ascii_lower_all("Function"@),
{
    reveal_strlit("Function");
    reveal_strlit("napi_function");
    reveal_strlit("napi_");
    assert("napi_function"@ =~= "napi_"@ + ascii_lower_all("Function"@));
}

proof fn lemma_napi_external()
    ensures
        "napi_external"@ == "napi_"@ + ascii_lower_all("External"@),
{
    reveal_strlit("External");
    reveal_strlit("napi_external");
    reveal_strlit("napi_");
    assert("napi_external"@ =~= "napi_"@ + ascii_lower_all("External"@));
}

proof fn lemma_napi_bigint()
    ensures
        "napi_bigint"@ == "napi_"@ + ascii_lower_all("Bigint"@),
{
    reveal_strlit("Bigint");
    reveal_strlit("napi_bigint");
    reveal_strlit("napi_");
    assert("napi_bigint"@ =~= "napi_"@ + ascii_lower_all("Bigint"@));
}

/// N-API's `napi_valuetype` constants in the order `js_native_api_types.h`
/// declares them, so that each constant's value is its position.
pub open spec fn napi_valuetypes() -> Seq<Seq<char>> {
    seq![
        "napi_undefined"@,
        "napi_null"@,
        "napi_boolean"@,
        "napi_number"@,
        "napi_string"@,
        "napi_symbol"@,
        "napi_object"@,
        "napi_function"@,
        "napi_external"@,
        "napi_bigint"@,
    ]
}

/// A type is N-API's type of the same name: its code is the value of the
/// `napi_valuetype` constant `napi_` followed by the type's name in lower
/// case (`String` is `napi_string`, whose value is 4).
pub proof fn type_names_law(t: NapiTypeOf)
    ensures
        t.code_spec() < napi_valuetypes().len(),
        napi_valuetypes()[t.code_spec() as int] == "napi_"@ + ascii_lower_all(t.name_spec()),
{
    match t {
        NapiTypeOf::Undefined => lemma_napi_undefined(),
        NapiTypeOf::Null => lemma_napi_null(),
        NapiTypeOf::Boolean => lemma_napi_boolean(),
        NapiTypeOf::Number => lemma_napi_number(),
        NapiTypeOf::String => lemma_napi_string(),
        NapiTypeOf::Symbol => lemma_napi_symbol(),
        NapiTypeOf::Object => lemma_napi_object(),
        NapiTypeOf::Function => lemma_napi_function(),
        NapiTypeOf::External => lemma_napi_external(),
        NapiTypeOf::Bigint => lemma_napi_bigint(),
    }
}

/// What a call of `napi_call_function` came to.
#[derive(Debug, Copy, Clone, PartialEq, Eq, Structural)]
pub enum CallOutcome {
    /// The function returned (`napi_ok`).
    Returned,
    /// The function threw: the exception is pending (`napi_pending_exception`).
    Threw,
    /// N-API failed for another reason.
    Failed,
}

/// N-API's status code for `napi_ok`.
pub const NAPI_OK: u32 = 0;

/// N-API's status code for `napi_pending_exception`.
pub const NAPI_PENDING_EXCEPTION: u32 = 10;

/// Classifies the status of `napi_call_function`: the result is to be used
/// when it returned, the pending exception is to be taken when it threw,
/// and any other status is a failure.
pub fn call_outcome(status: u32) -> (r: CallOutcome)
    ensures
        status == NAPI_OK ==> r == CallOutcome::Returned,
        status == NAPI_PENDING_EXCEPTION ==> r == CallOutcome::Threw,
        status != NAPI_OK && status != NAPI_PENDING_EXCEPTION ==> r == CallOutcome::Failed,
{
    if status == NAPI_OK {
        CallOutcome::Returned
    } else if status == NAPI_PENDING_EXCEPTION {
        CallOutcome::Threw
    } else {
        CallOutcome::Failed
    }
}

} // verus!
