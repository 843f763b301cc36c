//! The kinds of JavaScript values that a value is probed for, in order.

use vstd::prelude::*;
use vstd::string::*;

verus! {

/// The kind of a JavaScript value.
#[derive(Debug, Copy, Clone, PartialEq, Eq, Structural)]
pub enum JsTypeOf {
    // primitives
    JsBigInt,
    JsBoolean,
    JsNull,
    JsNumber,
    JsString,
    JsUndefined,
    // standard objects
    JsArray,
    JsDate,
    JsError,
    JsFunction,
    JsPromise,
    // buffers, array buffers, typed arrays
    JsBuffer,
    JsArrayBuffer,
    JsUint8Array,
    JsInt8Array,
    JsUint16Array,
    JsInt16Array,
    JsUint32Array,
    JsInt32Array,
    JsBigUint64Array,
    JsBigInt64Array,
    JsFloat32Array,
    JsFloat64Array,
    // plain objects
    JsObject,
    // anything else is unknown
    Unknown,
}

/// How many kinds a value is probed for.
pub const PROBE_COUNT: usize = 24;

/// The kind probed for at position `i`: primitives first, then standard
/// objects, buffers and typed arrays, and plain objects last.
pub open spec fn probe_spec(i: int) -> JsTypeOf {
    if i == 0 {
        JsTypeOf::JsBigInt
    } else if i == 1 {
        JsTypeOf::JsBoolean
    } else if i == 2 {
        JsTypeOf::JsNull
    } else if i == 3 {
        JsTypeOf::JsNumber
    } else if i == 4 {
        JsTypeOf::JsString
    } else if i == 5 {
        JsTypeOf::JsUndefined
    } else if i == 6 {
        JsTypeOf::JsArray
    } else if i == 7 {
        JsTypeOf::JsDate
    } else if i == 8 {
        JsTypeOf::JsError
    } else if i == 9 {
        JsTypeOf::JsFunction
    } else if i == 10 {
        JsTypeOf::JsPromise
    } else if i == 11 {
        JsTypeOf::JsBuffer
    } else if i == 12 {
        JsTypeOf::JsArrayBuffer
    } else if i == 13 {
        JsTypeOf::JsBigInt64Array
    } else if i == 14 {
        JsTypeOf::JsBigUint64Array
    } else if i == 15 {
        JsTypeOf::JsFloat32Array
    } else if i == 16 {
        JsTypeOf::JsFloat64Array
    } else if i == 17 {
        JsTypeOf::JsInt16Array
    } else if i == 18 {
        JsTypeOf::JsInt32Array
    } else if i == 19 {
        JsTypeOf::JsInt8Array
    } else if i == 20 {
        JsTypeOf::JsUint16Array
    } else if i == 21 {
        JsTypeOf::JsUint32Array
    } else if i == 22 {
        JsTypeOf::JsUint8Array
    } else if i == 23 {
        JsTypeOf::JsObject
    } else {
        JsTypeOf::Unknown
    }
}

/// The kind probed for at position `i`.
pub fn probe(i: usize) -> (t: JsTypeOf)
    ensures
        t == probe_spec(i as int),
{
    if i == 0 {
        JsTypeOf::JsBigInt
    } else if i == 1 {
        JsTypeOf::JsBoolean
    } else if i == 2 {
        JsTypeOf::JsNull
    } else if i == 3 {
        JsTypeOf::JsNumber
    } else if i == 4 {
        JsTypeOf::JsString
    } else if i == 5 {
        JsTypeOf::JsUndefined
    } else if i == 6 {
        JsTypeOf::JsArray
    } else if i == 7 {
        JsTypeOf::JsDate
    } else if i == 8 {
        JsTypeOf::JsError
    } else if i == 9 {
        JsTypeOf::JsFunction
    } else if i == 10 {
        JsTypeOf::JsPromise
    } else if i == 11 {
        JsTypeOf::JsBuffer
    } else if i == 12 {
        JsTypeOf::JsArrayBuffer
    } else if i == 13 {
        JsTypeOf::JsBigInt64Array
    } else if i == 14 {
        JsTypeOf::JsBigUint64Array
    } else if i == 15 {
        JsTypeOf::JsFloat32Array
    } else if i == 16 {
        JsTypeOf::JsFloat64Array
    } else if i == 17 {
        JsTypeOf::JsInt16Array
    } else if i == 18 {
        JsTypeOf::JsInt32Array
    } else if i == 19 {
        JsTypeOf::JsInt8Array
    } else if i == 20 {
        JsTypeOf::JsUint16Array
    } else if i == 21 {
        JsTypeOf::JsUint32Array
    } else if i == 22 {
        JsTypeOf::JsUint8Array
    } else if i == 23 {
        JsTypeOf::JsObject
    } else {
        JsTypeOf::Unknown
    }
}

/// Whether the value matched the kind probed for at position `i` (a
/// position past the end of `matches` did not match).
pub open spec fn probed(matches: Seq<bool>, i: int) -> bool {
    0 <= i < matches.len() && matches[i]
}

/// The kind of a value, given for each position `i` whether the value is of
/// the kind probed for there: the first kind that matches, else `Unknown`.
pub fn js_type_of(matches: &Vec<bool>) -> (t: JsTypeOf)
    ensures
        (exists|i: int| 0 <= i < PROBE_COUNT && probed(matches@, i)) ==> exists|i: int|
            0 <= i < PROBE_COUNT && probed(matches@, i) && t == probe_spec(i) && (forall|j: int|
                0 <= j < i ==> !#[trigger] probed(matches@, j)),
        (forall|i: int| 0 <= i < PROBE_COUNT ==> !#[trigger] probed(matches@, i)) ==> t
            == JsTypeOf::Unknown,
{
    let n = if matches.len() < PROBE_COUNT {
        matches.len()
    } else {
        PROBE_COUNT
    };
    let mut i: usize = 0;
    while i < n
        invariant
            n <= matches.len(),
            n <= PROBE_COUNT,
            n == PROBE_COUNT || n == matches.len(),
            i <= n,
            forall|j: int| 0 <= j < i ==> !#[trigger] probed(matches@, j),
        decreases n - i,
    {
        if matches[i] {
            assert(probed(matches@, i as int));
            return probe(i);
        }
        i = i + 1;
    }
    assert forall|j: int| 0 <= j < PROBE_COUNT implies !#[trigger] probed(matches@, j) by {
        if j >= n {
            assert(j >= matches.len());
        }
    }
    JsTypeOf::Unknown
}

impl JsTypeOf {
    /// How this kind is displayed.
    pub open spec fn name_spec(self) -> Seq<char> {
        match self {
            JsTypeOf::JsBigInt => "bigint"@,
            JsTypeOf::JsBoolean => "boolean"@,
            JsTypeOf::JsNull => "null"@,
            JsTypeOf::JsNumber => "number"@,
            JsTypeOf::JsString => "string"@,
            JsTypeOf::JsUndefined => "undefined"@,
            JsTypeOf::JsArray => "Array"@,
            JsTypeOf::JsDate => "Date"@,
            JsTypeOf::JsError => "Error"@,
            JsTypeOf::JsFunction => "Function"@,
            JsTypeOf::JsPromise => "Promise"@,
            JsTypeOf::JsBuffer => "Buffer"@,
            JsTypeOf::JsArrayBuffer => "ArrayBuffer"@,
            JsTypeOf::JsUint8Array => "Uint8Array"@,
            JsTypeOf::JsInt8Array => "Int8Array"@,
            JsTypeOf::JsUint16Array => "Uint16Array"@,
            JsTypeOf::JsInt16Array => "Int16Array"@,
            JsTypeOf::JsUint32Array => "Uint32Array"@,
            JsTypeOf::JsInt32Array => "Int32Array"@,
            JsTypeOf::JsBigUint64Array => "BigUint64Array"@,
            JsTypeOf::JsBigInt64Array => "BigInt64Array"@,
            JsTypeOf::JsFloat32Array => "Float32Array"@,
            JsTypeOf::JsFloat64Array => "Float64Array"@,
            JsTypeOf::JsObject => "object"@,
            JsTypeOf::Unknown => "[unknown]"@,
        }
    }

    /// How this kind is displayed (`bigint`, `Array`, `Uint8Array`, ...).
    pub fn name(&self) -> (s: String)
        ensures
            s@ == self.name_spec(),
    {
        match self {
            JsTypeOf::JsBigInt => String::from_str("bigint"),
            JsTypeOf::JsBoolean => String::from_str("boolean"),
            JsTypeOf::JsNull => String::from_str("null"),
            JsTypeOf::JsNumber => String::from_str("number"),
            JsTypeOf::JsString => String::from_str("string"),
            JsTypeOf::JsUndefined => String::from_str("undefined"),
            JsTypeOf::JsArray => String::from_str("Array"),
            JsTypeOf::JsDate => String::from_str("Date"),
            JsTypeOf::JsError => String::from_str("Error"),
            JsTypeOf::JsFunction => String::from_str("Function"),
            JsTypeOf::JsPromise => String::from_str("Promise"),
            JsTypeOf::JsBuffer => String::from_str("Buffer"),
            JsTypeOf::JsArrayBuffer => String::from_str("ArrayBuffer"),
            JsTypeOf::JsUint8Array => String::from_str("Uint8Array"),
            JsTypeOf::JsInt8Array => String::from_str("Int8Array"),
            JsTypeOf::JsUint16Array => String::from_str("Uint16Array"),
            JsTypeOf::JsInt16Array => String::from_str("Int16Array"),
            JsTypeOf::JsUint32Array => String::from_str("Uint32Array"),
            JsTypeOf::JsInt32Array => String::from_str("Int32Array"),
            JsTypeOf::JsBigUint64Array => String::from_str("BigUint64Array"),
            JsTypeOf::JsBigInt64Array => String::from_str("BigInt64Array"),
            JsTypeOf::JsFloat32Array => String::from_str("Float32Array"),
            JsTypeOf::JsFloat64Array => String::from_str("Float64Array"),
            JsTypeOf::JsObject => String::from_str("object"),
            JsTypeOf::Unknown => String::from_str("[unknown]"),
        }
    }
}

} // verus!
