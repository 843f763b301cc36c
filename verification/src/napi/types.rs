//! Typed JavaScript values.

use vstd::prelude::*;
use vstd::string::*;
use crate::napi::{Handle, NapiTypeOf};

verus! {

// ===== TYPES =================================================================

/// A typed JavaScript value.
pub trait NapiType: Sized {
    /// The handle of this value.
    spec fn handle_spec(&self) -> Handle;

    /// The type every value of this kind has, if there is one.
    spec fn type_of_spec() -> Option<NapiTypeOf>;

    /// The name of this kind of value.
    spec fn kind_name_spec() -> Seq<char>;

    /// The handle of this value.
    fn napi_handle(&self) -> (h: Handle)
        ensures
            h == self.handle_spec(),
    ;

    /// The type every value of this kind has, if there is one.
    fn type_of_expected() -> (t: Option<NapiTypeOf>)
        ensures
            t == Self::type_of_spec(),
    ;

    /// The name of this kind of value.
    fn kind_name() -> (s: String)
        ensures
            s@ == Self::kind_name_spec(),
    ;

    /// Whether a value of this kind must also be a JavaScript `Array`.
    spec fn array_only_spec() -> bool;

    /// Whether a value of this kind must also be a JavaScript `Array`.
    fn array_only() -> (b: bool)
        ensures
            b == Self::array_only_spec(),
    ;
}

/// A call of a JavaScript function: the function, its `this`, and its
/// arguments.
#[derive(Debug)]
pub struct NapiCall {
    pub function: Handle,
    pub this: Handle,
    pub args: Vec<Handle>,
}

/// A reference to a typed JavaScript value.
#[derive(Debug)]
pub struct NapiRef<T> {
    pub value: T,
}

impl<T: NapiType> NapiRef<T> {
    /// A reference to `value`.
    pub fn new(value: T) -> (r: NapiRef<T>)
        ensures
            r.value == value,
    {
        NapiRef { value }
    }

    /// The handle of the referenced value.
    pub fn napi_handle(&self) -> (h: Handle)
        ensures
            h == self.value.handle_spec(),
    {
        self.value.napi_handle()
    }

    /// The same value, untyped (its type not yet known).
    pub fn as_value(&self) -> (r: NapiRef<NapiValue>)
        ensures
            r.value.handle == self.value.handle_spec(),
            r.value.type_of is None,
    {
        NapiRef { value: NapiValue::from_handle(self.value.napi_handle()) }
    }

    /// Checks that the referenced value, whose type is `actual` and which is
    /// an `Array` or not as `is_array` says (what `napi_is_array` answered),
    /// is of the kind `D`: the handle when it is; else the message
    /// `Invalid handle type <actual> for <D>` when the type differs, or
    /// `Specified object is not a JavaScript Array` when `D` is an array kind
    /// and the value is not an array.
    pub fn downcast<D: NapiType>(&self, actual: NapiTypeOf, is_array: bool) -> (r: Result<Handle, String>)
        ensures
            (D::type_of_spec() matches Some(t) && t != actual) ==> (r matches Err(m) && m@
                == "Invalid handle type "@ + actual.name_spec() + " for "@ + D::kind_name_spec()),
            (D::type_of_spec() is None || D::type_of_spec() == Some(actual)) && D::array_only_spec()
                && !is_array ==> (r matches Err(m) && m@
                == "Specified object is not a JavaScript Array"@),
            (D::type_of_spec() is None || D::type_of_spec() == Some(actual)) && (
            !D::array_only_spec() || is_array) ==> r == Ok::<Handle, String>(
                self.value.handle_spec(),
            ),
    {
        match D::type_of_expected() {
            Some(t) => if t != actual {
                let mut m = String::from_str("Invalid handle type ");
                let name = actual.name();
                m.append(name.as_str());
                m.append(" for ");
                let target = D::kind_name();
                m.append(target.as_str());
                return Err(m);
            },
            None => {},
        }
        if D::array_only() && !is_array {
            return Err(String::from_str("Specified object is not a JavaScript Array"));
        }
        Ok(self.value.napi_handle())
    }
}

// ===== VALUE =================================================================

/// Any JavaScript value, with its type once it is known.
#[derive(Debug)]
pub struct NapiValue {
    pub handle: Handle,
    pub type_of: Option<NapiTypeOf>,
}

impl NapiValue {
    /// A value whose type is not yet known.
    pub fn from_handle(handle: Handle) -> (v: NapiValue)
        ensures
            v.handle == handle,
            v.type_of is None,
    {
        NapiValue { handle, type_of: None }
    }

    /// A value of a known type.
    pub fn from_handle_and_type_of(handle: Handle, type_of: NapiTypeOf) -> (v: NapiValue)
        ensures
            v.handle == handle,
            v.type_of == Some(type_of),
    {
        NapiValue { handle, type_of: Some(type_of) }
    }

    /// The type of this value, once asked for.
    pub fn cached_type_of(&self) -> (t: Option<NapiTypeOf>)
        ensures
            t == self.type_of,
    {
        self.type_of
    }

    /// The type of this value: the one known already, else `queried` (what
    /// `napi_typeof` says), which is then kept.
    pub fn type_of(&mut self, queried: NapiTypeOf) -> (t: NapiTypeOf)
        ensures
            old(self).type_of matches Some(k) ==> t == k,
            old(self).type_of is None ==> t == queried,
            final(self).type_of == Some(t),
            final(self).handle == old(self).handle,
    {
        match self.type_of {
            Some(t) => t,
            None => {
                self.type_of = Some(queried);
                queried
            },
        }
    }
}

impl NapiType for NapiValue {
    open spec fn handle_spec(&self) -> Handle {
        self.handle
    }

    open spec fn type_of_spec() -> Option<NapiTypeOf> {
        None
    }

    open spec fn kind_name_spec() -> Seq<char> {
        "NapiValue"@
    }

    fn napi_handle(&self) -> (h: Handle) {
        self.handle
    }

    fn type_of_expected() -> (t: Option<NapiTypeOf>) {
        None
    }

    fn kind_name() -> (s: String) {
        String::from_str("NapiValue")
    }

    open spec fn array_only_spec() -> bool {
        false
    }

    fn array_only() -> (b: bool) {
        false
    }
}

// ===== BIGINT ================================================================

/// A JavaScript `bigint` and its value.
#[derive(Debug)]
pub struct NapiBigint {
    pub handle: Handle,
    pub value: i128,
}

impl NapiBigint {
    /// The `bigint` `handle`, made from `value`.
    pub fn new(handle: Handle, value: i128) -> (b: NapiBigint)
        ensures
            b.handle == handle,
            b.value == value,
    {
        NapiBigint { handle, value }
    }

    /// The value of this `bigint`.
    pub fn value(&self) -> (v: i128)
        ensures
            v == self.value,
    {
        self.value
    }
}

impl NapiType for NapiBigint {
    open spec fn handle_spec(&self) -> Handle {
        self.handle
    }

    open spec fn type_of_spec() -> Option<NapiTypeOf> {
        Some(NapiTypeOf::Bigint)
    }

    open spec fn kind_name_spec() -> Seq<char> {
        "NapiBigint"@
    }

    fn napi_handle(&self) -> (h: Handle) {
        self.handle
    }

    fn type_of_expected() -> (t: Option<NapiTypeOf>) {
        Some(NapiTypeOf::Bigint)
    }

    fn kind_name() -> (s: String) {
        String::from_str("NapiBigint")
    }

    open spec fn array_only_spec() -> bool {
        false
    }

    fn array_only() -> (b: bool) {
        false
    }
}

// ===== BOOLEAN ===============================================================

/// A JavaScript `boolean` and its value.
#[derive(Debug)]
pub struct NapiBoolean {
    pub handle: Handle,
    pub value: bool,
}

impl NapiBoolean {
    /// The `boolean` `handle`, with the value `value`.
    pub fn new(handle: Handle, value: bool) -> (b: NapiBoolean)
        ensures
            b.handle == handle,
            b.value == value,
    {
        NapiBoolean { handle, value }
    }

    /// The value of this `boolean`.
    pub fn value(&self) -> (v: bool)
        ensures
            v == self.value,
    {
        self.value
    }
}

impl NapiType for NapiBoolean {
    open spec fn handle_spec(&self) -> Handle {
        self.handle
    }

    open spec fn type_of_spec() -> Option<NapiTypeOf> {
        Some(NapiTypeOf::Boolean)
    }

    open spec fn kind_name_spec() -> Seq<char> {
        "NapiBoolean"@
    }

    fn napi_handle(&self) -> (h: Handle) {
        self.handle
    }

    fn type_of_expected() -> (t: Option<NapiTypeOf>) {
        Some(NapiTypeOf::Boolean)
    }

    fn kind_name() -> (s: String) {
        String::from_str("NapiBoolean")
    }

    open spec fn array_only_spec() -> bool {
        false
    }

    fn array_only() -> (b: bool) {
        false
    }
}

// ===== STRING ================================================================

/// A JavaScript `string` and its value.
#[derive(Debug)]
pub struct NapiString {
    pub handle: Handle,
    pub value: String,
}

impl NapiString {
    /// The `string` `handle`, made from `value`.
    pub fn new(handle: Handle, value: &str) -> (s: NapiString)
        ensures
            s.handle == handle,
            s.value@ == value@,
    {
        NapiString { handle, value: value.to_owned() }
    }

    /// The value of this `string`.
    pub fn value(&self) -> (v: &str)
        ensures
            v@ == self.value@,
    {
        self.value.as_str()
    }
}

impl NapiType for NapiString {
    open spec fn handle_spec(&self) -> Handle {
        self.handle
    }

    open spec fn type_of_spec() -> Option<NapiTypeOf> {
        Some(NapiTypeOf::String)
    }

    open spec fn kind_name_spec() -> Seq<char> {
        "NapiString"@
    }

    fn napi_handle(&self) -> (h: Handle) {
        self.handle
    }

    fn type_of_expected() -> (t: Option<NapiTypeOf>) {
        Some(NapiTypeOf::String)
    }

    fn kind_name() -> (s: String) {
        String::from_str("NapiString")
    }

    open spec fn array_only_spec() -> bool {
        false
    }

    fn array_only() -> (b: bool) {
        false
    }
}

// ===== NULL, UNDEFINED, OBJECT ===============================================

/// The JavaScript `null`.
#[derive(Debug)]
pub struct NapiNull {
    pub handle: Handle,
}

impl NapiNull {
    /// The `null` value, by its handle.
    pub fn new(handle: Handle) -> (n: NapiNull)
        ensures
            n.handle == handle,
    {
        NapiNull { handle }
    }
}

impl NapiType for NapiNull {
    open spec fn handle_spec(&self) -> Handle {
        self.handle
    }

    open spec fn type_of_spec() -> Option<NapiTypeOf> {
        Some(NapiTypeOf::Null)
    }

    open spec fn kind_name_spec() -> Seq<char> {
        "NapiNull"@
    }

    fn napi_handle(&self) -> (h: Handle) {
        self.handle
    }

    fn type_of_expected() -> (t: Option<NapiTypeOf>) {
        Some(NapiTypeOf::Null)
    }

    fn kind_name() -> (s: String) {
        String::from_str("NapiNull")
    }

    open spec fn array_only_spec() -> bool {
        false
    }

    fn array_only() -> (b: bool) {
        false
    }
}

/// The JavaScript `undefined`.
#[derive(Debug)]
pub struct NapiUndefined {
    pub handle: Handle,
}

impl NapiUndefined {
    /// The `undefined` value, by its handle.
    pub fn new(handle: Handle) -> (u: NapiUndefined)
        ensures
            u.handle == handle,
    {
        NapiUndefined { handle }
    }
}

impl NapiType for NapiUndefined {
    open spec fn handle_spec(&self) -> Handle {
        self.handle
    }

    open spec fn type_of_spec() -> Option<NapiTypeOf> {
        Some(NapiTypeOf::Undefined)
    }

    open spec fn kind_name_spec() -> Seq<char> {
        "NapiUndefined"@
    }

    fn napi_handle(&self) -> (h: Handle) {
        self.handle
    }

    fn type_of_expected() -> (t: Option<NapiTypeOf>) {
        Some(NapiTypeOf::Undefined)
    }

    fn kind_name() -> (s: String) {
        String::from_str("NapiUndefined")
    }

    open spec fn array_only_spec() -> bool {
        false
    }

    fn array_only() -> (b: bool) {
        false
    }
}

/// A JavaScript object.
#[derive(Debug)]
pub struct NapiObject {
    pub handle: Handle,
}

impl NapiObject {
    /// An object, by its handle.
    pub fn new(handle: Handle) -> (o: NapiObject)
        ensures
            o.handle == handle,
    {
        NapiObject { handle }
    }
}

impl NapiType for NapiObject {
    open spec fn handle_spec(&self) -> Handle {
        self.handle
    }

    open spec fn type_of_spec() -> Option<NapiTypeOf> {
        Some(NapiTypeOf::Object)
    }

    open spec fn kind_name_spec() -> Seq<char> {
        "NapiObject"@
    }

    fn napi_handle(&self) -> (h: Handle) {
        self.handle
    }

    fn type_of_expected() -> (t: Option<NapiTypeOf>) {
        Some(NapiTypeOf::Object)
    }

    fn kind_name() -> (s: String) {
        String::from_str("NapiObject")
    }

    open spec fn array_only_spec() -> bool {
        false
    }

    fn array_only() -> (b: bool) {
        false
    }
}

// ===== SYMBOL ================================================================

/// A JavaScript `symbol`.
#[derive(Debug)]
pub struct NapiSymbol {
    pub handle: Handle,
}

impl NapiSymbol {
    /// A new symbol, by its handle.
    pub fn new(handle: Handle) -> (s: NapiSymbol)
        ensures
            s.handle == handle,
    {
        NapiSymbol { handle }
    }

    /// The symbol of the global registry (`Symbol.for`), by its handle.
    pub fn new_for(handle: Handle) -> (s: NapiSymbol)
        ensures
            s.handle == handle,
    {
        NapiSymbol { handle }
    }

    /// The description of this symbol, from its `description` property: the
    /// property's type and, when it is a string, its text.
    pub fn description(&self, property_type: NapiTypeOf, text: Option<String>) -> (d: Option<String>)
        ensures
            property_type == NapiTypeOf::String ==> d == text,
            property_type != NapiTypeOf::String ==> d is None,
    {
        match property_type {
            NapiTypeOf::String => text,
            _ => None,
        }
    }
}

impl NapiType for NapiSymbol {
    open spec fn handle_spec(&self) -> Handle {
        self.handle
    }

    open spec fn type_of_spec() -> Option<NapiTypeOf> {
        Some(NapiTypeOf::Symbol)
    }

    open spec fn kind_name_spec() -> Seq<char> {
        "NapiSymbol"@
    }

    fn napi_handle(&self) -> (h: Handle) {
        self.handle
    }

    fn type_of_expected() -> (t: Option<NapiTypeOf>) {
        Some(NapiTypeOf::Symbol)
    }

    fn kind_name() -> (s: String) {
        String::from_str("NapiSymbol")
    }

    open spec fn array_only_spec() -> bool {
        false
    }

    fn array_only() -> (b: bool) {
        false
    }
}

// ===== FUNCTION ==============================================================

/// A JavaScript function.
#[derive(Debug)]
pub struct NapiFunction {
    pub handle: Handle,
}

/// The arguments gathered for a call of a function.
#[derive(Debug)]
pub struct NapiArguments {
    pub function: Handle,
    pub arguments: Vec<Handle>,
}

impl NapiFunction {
    /// A function, by its handle.
    pub fn new(handle: Handle) -> (f: NapiFunction)
        ensures
            f.handle == handle,
    {
        NapiFunction { handle }
    }

    /// Starts gathering the arguments of a call of this function with `arg`.
    pub fn with<T: NapiType>(&self, arg: NapiRef<T>) -> (a: NapiArguments)
        ensures
            a.function == self.handle,
            a.arguments@ == seq![arg.value.handle_spec()],
    {
        let handle = arg.napi_handle();
        let mut arguments: Vec<Handle> = Vec::new();
        arguments.push(handle);
        NapiArguments { function: self.handle, arguments }
    }
}

impl NapiType for NapiFunction {
    open spec fn handle_spec(&self) -> Handle {
        self.handle
    }

    open spec fn type_of_spec() -> Option<NapiTypeOf> {
        Some(NapiTypeOf::Function)
    }

    open spec fn kind_name_spec() -> Seq<char> {
        "NapiFunction"@
    }

    fn napi_handle(&self) -> (h: Handle) {
        self.handle
    }

    fn type_of_expected() -> (t: Option<NapiTypeOf>) {
        Some(NapiTypeOf::Function)
    }

    fn kind_name() -> (s: String) {
        String::from_str("NapiFunction")
    }

    open spec fn array_only_spec() -> bool {
        false
    }

    fn array_only() -> (b: bool) {
        false
    }
}

impl NapiArguments {
    /// Adds `arg` after the arguments gathered so far.
    pub fn with<T: NapiType>(self, arg: &NapiRef<T>) -> (a: NapiArguments)
        ensures
            a.function == self.function,
            a.arguments@ == self.arguments@.push(arg.value.handle_spec()),
    {
        let mut arguments = self.arguments;
        arguments.push(arg.napi_handle());
        NapiArguments { function: self.function, arguments }
    }

    /// The call of the function with the arguments gathered, and `null` (by
    /// its handle) as `this`.
    pub fn call(self, null: &NapiNull) -> (c: NapiCall)
        ensures
            c.function == self.function,
            c.this == null.handle,
            c.args@ == self.arguments@,
    {
        NapiCall { function: self.function, this: null.handle, args: self.arguments }
    }

    /// The call of the function with the arguments gathered, on `this`.
    pub fn call_on<T: NapiType>(self, this: NapiRef<T>) -> (c: NapiCall)
        ensures
            c.function == self.function,
            c.this == this.value.handle_spec(),
            c.args@ == self.arguments@,
    {
        NapiCall { function: self.function, this: this.napi_handle(), args: self.arguments }
    }
}

// ===== ARRAY =================================================================

/// A JavaScript `Array`, with its `pop`, `push` and `splice` methods once they
/// were looked up.
#[derive(Debug)]
pub struct NapiArray {
    pub handle: Handle,
    pub pop: Option<Handle>,
    pub push: Option<Handle>,
    pub splice: Option<Handle>,
}

/// An operation on an element of an array, by the array's handle.
#[derive(Debug, PartialEq, Eq, Structural)]
pub enum NapiElementOp {
    /// Set the element at `index` to `value`.
    SetElement { array: Handle, index: u32, value: Handle },
    /// Ask whether there is an element at `index`.
    HasElement { array: Handle, index: u32 },
    /// Delete the element at `index`.
    DeleteElement { array: Handle, index: u32 },
}

/// The method `cached` when it was looked up already, else `fetched`.
pub open spec fn method(cached: Option<Handle>, fetched: Handle) -> Handle {
    match cached {
        Some(h) => h,
        None => fetched,
    }
}

fn cached_or(cached: &mut Option<Handle>, fetched: Handle) -> (h: Handle)
    ensures
        h == method(*old(cached), fetched),
        *final(cached) == Some(h),
{
    match *cached {
        Some(h) => h,
        None => {
            *cached = Some(fetched);
            fetched
        },
    }
}

/// The handles of the referenced values, in order.
pub open spec fn handles_of(items: Seq<NapiRef<NapiValue>>) -> Seq<Handle> {
    items.map_values(|r: NapiRef<NapiValue>| r.value.handle)
}

fn handles(items: &Vec<NapiRef<NapiValue>>) -> (h: Vec<Handle>)
    ensures
        h@ == handles_of(items@),
{
    let mut h: Vec<Handle> = Vec::new();
    let n = items.len();
    let mut i: usize = 0;
    while i < n
        invariant
            n == items.len(),
            i <= n,
            h@ == handles_of(items@.subrange(0, i as int)),
        decreases n - i,
    {
        h.push(items[i].value.handle);
        i = i + 1;
        assert(h@ =~= handles_of(items@.subrange(0, i as int)));
    }
    assert(items@.subrange(0, n as int) =~= items@);
    h
}

impl NapiArray {
    /// An array, by its handle, if the value is one (as `napi_is_array`
    /// said); else the message `Specified object is not a JavaScript Array`.
    pub fn from_handle(handle: Handle, is_array: bool) -> (r: Result<NapiArray, String>)
        ensures
            is_array ==> (r matches Ok(a) && a.handle == handle && a.pop is None && a.push is None
                && a.splice is None),
            !is_array ==> (r matches Err(m) && m@ == "Specified object is not a JavaScript Array"@),
    {
        if is_array {
            Ok(NapiArray { handle, pop: None, push: None, splice: None })
        } else {
            Err(String::from_str("Specified object is not a JavaScript Array"))
        }
    }

    /// A new array, by its handle.
    pub fn new(handle: Handle) -> (a: NapiArray)
        ensures
            a.handle == handle,
            a.pop is None && a.push is None && a.splice is None,
    {
        NapiArray { handle, pop: None, push: None, splice: None }
    }

    /// The element read at some index, untyped.
    pub fn get_element(&self, element: Handle) -> (r: NapiRef<NapiValue>)
        ensures
            r.value.handle == element,
            r.value.type_of is None,
    {
        NapiRef { value: NapiValue::from_handle(element) }
    }

    /// Setting the element at `index` to `value` (`napi_set_element`).
    pub fn set_element<T: NapiType>(&self, index: u32, value: &NapiRef<T>) -> (op: NapiElementOp)
        ensures
            op == (NapiElementOp::SetElement {
                array: self.handle,
                index,
                value: value.value.handle_spec(),
            }),
    {
        NapiElementOp::SetElement { array: self.handle, index, value: value.napi_handle() }
    }

    /// Asking whether there is an element at `index` (`napi_has_element`).
    pub fn has_element(&self, index: u32) -> (op: NapiElementOp)
        ensures
            op == (NapiElementOp::HasElement { array: self.handle, index }),
    {
        NapiElementOp::HasElement { array: self.handle, index }
    }

    /// Deleting the element at `index` (`napi_delete_element`).
    pub fn delete_element(&self, index: u32) -> (op: NapiElementOp)
        ensures
            op == (NapiElementOp::DeleteElement { array: self.handle, index }),
    {
        NapiElementOp::DeleteElement { array: self.handle, index }
    }

    /// The call of `push` with `item`, where `fetched` is the array's `push`
    /// property (only looked at the first time).
    pub fn push<T: NapiType>(&mut self, item: &NapiRef<T>, fetched: Handle) -> (c: NapiCall)
        ensures
            c.function == method(old(self).push, fetched),
            c.this == old(self).handle,
            c.args@ == seq![item.value.handle_spec()],
            final(self).push == Some(c.function),
            final(self).handle == old(self).handle,
            final(self).pop == old(self).pop,
            final(self).splice == old(self).splice,
    {
        let function = cached_or(&mut self.push, fetched);
        let mut args: Vec<Handle> = Vec::new();
        args.push(item.napi_handle());
        NapiCall { function, this: self.handle, args }
    }

    /// The call of `push` with all of `items`, where `fetched` is the array's
    /// `push` property (only looked at the first time).
    pub fn pushn(&mut self, items: &Vec<NapiRef<NapiValue>>, fetched: Handle) -> (c: NapiCall)
        ensures
            c.function == method(old(self).push, fetched),
            c.this == old(self).handle,
            c.args@ == handles_of(items@),
            final(self).push == Some(c.function),
            final(self).handle == old(self).handle,
            final(self).pop == old(self).pop,
            final(self).splice == old(self).splice,
    {
        let function = cached_or(&mut self.push, fetched);
        let args = handles(items);
        NapiCall { function, this: self.handle, args }
    }

    /// The call of `pop`, where `fetched` is the array's `pop` property (only
    /// looked at the first time).
    pub fn pop(&mut self, fetched: Handle) -> (c: NapiCall)
        ensures
            c.function == method(old(self).pop, fetched),
            c.this == old(self).handle,
            c.args@ == Seq::<Handle>::empty(),
            final(self).pop == Some(c.function),
            final(self).handle == old(self).handle,
            final(self).push == old(self).push,
            final(self).splice == old(self).splice,
    {
        let function = cached_or(&mut self.pop, fetched);
        NapiCall { function, this: self.handle, args: Vec::new() }
    }

    /// The call of `splice` from `start`, deleting `delete_count` elements
    /// and inserting `items` (the numbers by their handles), where `fetched`
    /// is the array's `splice` property (only looked at the first time).
    pub fn splice(
        &mut self,
        start: Handle,
        delete_count: Handle,
        items: &Vec<NapiRef<NapiValue>>,
        fetched: Handle,
    ) -> (c: NapiCall)
        ensures
            c.function == method(old(self).splice, fetched),
            c.this == old(self).handle,
            c.args@ == seq![start, delete_count] + handles_of(items@),
            final(self).splice == Some(c.function),
            final(self).handle == old(self).handle,
            final(self).pop == old(self).pop,
            final(self).push == old(self).push,
    {
        let function = cached_or(&mut self.splice, fetched);
        let rest = handles(items);
        let mut args: Vec<Handle> = Vec::new();
        args.push(start);
        args.push(delete_count);
        let mut i: usize = 0;
        while i < rest.len()
            invariant
                i <= rest.len(),
                args@ == seq![start, delete_count] + rest@.subrange(0, i as int),
            decreases rest.len() - i,
        {
            args.push(rest[i]);
            i = i + 1;
            assert(args@ =~= seq![start, delete_count] + rest@.subrange(0, i as int));
        }
        assert(rest@.subrange(0, rest.len() as int) =~= rest@);
        NapiCall { function, this: self.handle, args }
    }
}

impl NapiType for NapiArray {
    open spec fn handle_spec(&self) -> Handle {
        self.handle
    }

    open spec fn type_of_spec() -> Option<NapiTypeOf> {
        Some(NapiTypeOf::Object)
    }

    open spec fn kind_name_spec() -> Seq<char> {
        "NapiArray"@
    }

    fn napi_handle(&self) -> (h: Handle) {
        self.handle
    }

    fn type_of_expected() -> (t: Option<NapiTypeOf>) {
        Some(NapiTypeOf::Object)
    }

    fn kind_name() -> (s: String) {
        String::from_str("NapiArray")
    }

    open spec fn array_only_spec() -> bool {
        true
    }

    fn array_only() -> (b: bool) {
        true
    }
}

/// A method looked up once is used for every later call: the cached method
/// wins over whatever is fetched afterwards.
pub proof fn method_cached_law(first: Handle, later: Handle)
    ensures
        method(None, first) == first,
        method(Some(method(None, first)), later) == first,
{
}

} // verus!
