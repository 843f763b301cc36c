use libpq::napi::bigint::{bigint_fits, create_bigint_words, get_value_bigint_words, BigintWords};
use libpq::napi::contexts::{register_module, FunctionContext, InitContext, InitEnv, Napi};
use libpq::napi::errors::{panic_message, ErrorDetails, NapiCatch, NapiErr};
use libpq::napi::exec::{exec_reply, CallbackEnd, ExecReply, ThreadEnv};
use libpq::napi::types::{
    NapiArray, NapiBigint, NapiElementOp, NapiBoolean, NapiFunction, NapiNull, NapiObject, NapiRef, NapiString,
    NapiSymbol, NapiUndefined, NapiValue,
};
use libpq::napi::{call_outcome, CallOutcome, Env, Handle, NapiTypeOf, NAPI_OK, NAPI_PENDING_EXCEPTION};

fn h(raw: usize) -> Handle {
    Handle { raw }
}

fn words_round_trip(value: i128) -> i128 {
    let w = create_bigint_words(value);
    assert!(bigint_fits(w.sign, 2, w.high));
    get_value_bigint_words(w.sign, 2, w.low, w.high)
}

#[test]
fn bigint_words_of_values() {
    assert_eq!(create_bigint_words(0), BigintWords { sign: 0, low: 0, high: 0 });
    assert_eq!(create_bigint_words(5), BigintWords { sign: 0, low: 5, high: 0 });
    assert_eq!(create_bigint_words(-5), BigintWords { sign: 1, low: 5, high: 0 });
    assert_eq!(
        create_bigint_words(1 << 64),
        BigintWords { sign: 0, low: 0, high: 1 }
    );
    assert_eq!(
        create_bigint_words(i128::MAX),
        BigintWords { sign: 0, low: u64::MAX, high: u64::MAX >> 1 }
    );
    assert_eq!(
        create_bigint_words(i128::MIN),
        BigintWords { sign: 1, low: 0, high: 1 << 63 }
    );
}

#[test]
fn bigint_round_trips() {
    assert_eq!(words_round_trip(0), 0);
    assert_eq!(words_round_trip(123456789), 123456789);
    assert_eq!(words_round_trip(i128::MAX), i128::MAX);
    assert_eq!(words_round_trip(i128::MIN), i128::MIN);
    // reading back does not apply the sign bit: -1 reads as its magnitude
    assert_eq!(words_round_trip(-1), 1);
    assert_eq!(words_round_trip(-(1 << 70)), 1 << 70);
}

#[test]
fn bigint_reading() {
    assert_eq!(get_value_bigint_words(0, 1, 7, 0), 7);
    assert_eq!(get_value_bigint_words(1, 2, 0, 1 << 63), i128::MIN);
    assert_eq!(get_value_bigint_words(1, 2, u64::MAX, u64::MAX), -1);
    assert!(!bigint_fits(0, 3, 0));
    assert!(!bigint_fits(0, 2, 1 << 63));
    assert!(bigint_fits(1, 2, 1 << 63));
    assert!(bigint_fits(0, 0, 0));
}

#[test]
fn type_codes() {
    for code in 0u32..10 {
        assert_eq!(NapiTypeOf::from_code(code).unwrap().code(), code);
    }
    assert_eq!(NapiTypeOf::from_code(10), None);
    assert_eq!(NapiTypeOf::from_code(0), Some(NapiTypeOf::Undefined));
    assert_eq!(NapiTypeOf::from_code(9), Some(NapiTypeOf::Bigint));
    assert_eq!(NapiTypeOf::String.name(), "String");
    assert_eq!(NapiTypeOf::Bigint.name(), "Bigint");
}

#[test]
fn call_outcomes() {
    assert_eq!(call_outcome(NAPI_OK), CallOutcome::Returned);
    assert_eq!(call_outcome(NAPI_PENDING_EXCEPTION), CallOutcome::Threw);
    assert_eq!(call_outcome(1), CallOutcome::Failed);
    assert_eq!(call_outcome(0), CallOutcome::Returned);
    assert_eq!(call_outcome(10), CallOutcome::Threw);
}

#[test]
fn values_cache_their_type() {
    let mut v = NapiValue::from_handle(h(1));
    assert_eq!(v.cached_type_of(), None);
    assert_eq!(v.type_of(NapiTypeOf::Number), NapiTypeOf::Number);
    assert_eq!(v.cached_type_of(), Some(NapiTypeOf::Number));
    // once known, a later answer is not looked at
    assert_eq!(v.type_of(NapiTypeOf::String), NapiTypeOf::Number);
    let known = NapiValue::from_handle_and_type_of(h(2), NapiTypeOf::Boolean);
    assert_eq!(known.cached_type_of(), Some(NapiTypeOf::Boolean));
}

#[test]
fn downcasting() {
    let r = NapiRef::new(NapiValue::from_handle(h(9)));
    assert_eq!(r.downcast::<NapiString>(NapiTypeOf::String, false), Ok(h(9)));
    assert_eq!(
        r.downcast::<NapiString>(NapiTypeOf::Number, false),
        Err("Invalid handle type Number for NapiString".to_string())
    );
    assert_eq!(
        r.downcast::<NapiBigint>(NapiTypeOf::Object, true),
        Err("Invalid handle type Object for NapiBigint".to_string())
    );
    assert_eq!(r.downcast::<NapiArray>(NapiTypeOf::Object, true), Ok(h(9)));
    // an object that is not an array is no array
    assert_eq!(
        r.downcast::<NapiArray>(NapiTypeOf::Object, false),
        Err("Specified object is not a JavaScript Array".to_string())
    );
    assert_eq!(
        r.downcast::<NapiArray>(NapiTypeOf::String, false),
        Err("Invalid handle type String for NapiArray".to_string())
    );
    // a plain object need not be an array
    assert_eq!(r.downcast::<NapiObject>(NapiTypeOf::Object, false), Ok(h(9)));
    // any value is a value
    assert_eq!(r.downcast::<NapiValue>(NapiTypeOf::Symbol, false), Ok(h(9)));
    let as_value = NapiRef::new(NapiBoolean::new(h(4), true)).as_value();
    assert_eq!(as_value.value.handle, h(4));
    assert_eq!(as_value.value.type_of, None);
}

#[test]
fn primitive_values() {
    let b = NapiBigint::new(h(1), -3);
    assert_eq!(b.value(), -3);
    let t = NapiBoolean::new(h(2), false);
    assert!(!t.value());
    let s = NapiString::new(h(3), "text");
    assert_eq!(s.value(), "text");
    assert_eq!(NapiRef::new(s).napi_handle(), h(3));
    assert_eq!(NapiNull::new(h(4)).handle, h(4));
    assert_eq!(NapiUndefined::new(h(5)).handle, h(5));
    assert_eq!(NapiObject::new(h(6)).handle, h(6));
    assert_eq!(Napi {}.boolean(h(7), true).value(), true);
}

#[test]
fn symbols() {
    let s = NapiSymbol::new(h(1));
    assert_eq!(
        s.description(NapiTypeOf::String, Some("tag".to_string())),
        Some("tag".to_string())
    );
    assert_eq!(s.description(NapiTypeOf::Undefined, None), None);
    assert_eq!(s.description(NapiTypeOf::Number, Some("ignored".to_string())), None);
    assert_eq!(NapiSymbol::new_for(h(2)).handle, h(2));
}

#[test]
fn function_calls() {
    let f = NapiFunction::new(h(10));
    let call = f
        .with(NapiRef::new(NapiString::new(h(11), "a")))
        .with(&NapiRef::new(NapiBoolean::new(h(12), true)))
        .call(&NapiNull::new(h(13)));
    assert_eq!(call.function, h(10));
    assert_eq!(call.this, h(13));
    assert_eq!(call.args, vec![h(11), h(12)]);
    let call = f.with(NapiRef::new(NapiNull::new(h(14)))).call_on(NapiRef::new(NapiObject::new(h(15))));
    assert_eq!(call.this, h(15));
    assert_eq!(call.args, vec![h(14)]);
}

#[test]
fn arrays() {
    assert_eq!(
        NapiArray::from_handle(h(1), false).unwrap_err(),
        "Specified object is not a JavaScript Array"
    );
    let mut a = NapiArray::from_handle(h(1), true).unwrap();
    assert_eq!(a.push, None);
    let item = NapiRef::new(NapiString::new(h(2), "x"));
    let call = a.push(&item, h(100));
    assert_eq!(call.function, h(100));
    assert_eq!(call.this, h(1));
    assert_eq!(call.args, vec![h(2)]);
    // the method found first is kept
    let items = vec![NapiRef::new(NapiValue::from_handle(h(3))), NapiRef::new(NapiValue::from_handle(h(4)))];
    let call = a.pushn(&items, h(200));
    assert_eq!(call.function, h(100));
    assert_eq!(call.args, vec![h(3), h(4)]);
    let call = a.pop(h(300));
    assert_eq!(call.function, h(300));
    assert!(call.args.is_empty());
    assert_eq!(a.pop(h(301)).function, h(300));
    let call = a.splice(h(5), h(6), &items, h(400));
    assert_eq!(call.function, h(400));
    assert_eq!(call.args, vec![h(5), h(6), h(3), h(4)]);
    assert_eq!(a.get_element(h(7)).value.handle, h(7));
    assert_eq!(NapiArray::new(h(8)).splice, None);
}

#[test]
fn errors_of_thrown_values() {
    let e = NapiErr::new("bad thing", h(1));
    assert_eq!(e.message(), "bad thing");
    assert_eq!(e.into_handle(), h(1));
    let e = NapiErr::from_handle(h(2), ErrorDetails::IsError { message: Some("msg".to_string()) });
    assert_eq!(e.message, "msg");
    let e = NapiErr::from_handle(h(2), ErrorDetails::IsError { message: None });
    assert_eq!(e.message, "Unknown JavaScript Error");
    let e = NapiErr::from_handle(h(3), ErrorDetails::NotAnError { coerced: "42".to_string() });
    assert_eq!(e.message, "42");
    assert_eq!(e.handle, h(3));
}

#[test]
fn panic_messages() {
    assert_eq!(panic_message(Some("oh no")), "PANIC: oh no");
    assert_eq!(panic_message(None), "PANIC: Unknown error");
}

#[test]
fn catching_errors() {
    let ok: Result<u32, NapiErr> = Ok(5);
    let r: Result<u32, String> = ok.catch(|_| Err("unused".to_string()));
    assert_eq!(r, Ok(5));
    let err: Result<u32, NapiErr> = Err(NapiErr::new("thrown", h(8)));
    let r: Result<u32, String> = err.catch(|v| Ok(v.value.handle.raw as u32));
    assert_eq!(r, Ok(8));
}

#[test]
fn contexts() {
    let init = InitContext::new(h(1));
    assert_eq!(init.exports().value.handle, h(1));
    let env = InitEnv::new(Env { raw: 77 });
    assert_eq!(env.napi_env(), Env { raw: 77 });
    assert_eq!(register_module(Ok(init.exports())), Ok(h(1)));
    let failed: Result<NapiRef<NapiObject>, NapiErr> = Err(NapiErr::new("init failed", h(2)));
    assert_eq!(register_module(failed), Err(h(2)));

    let cx = FunctionContext::new(h(10), vec![h(11), h(12)]);
    assert_eq!(cx.this().value.handle, h(10));
    assert_eq!(cx.argc(), 2);
    assert_eq!(cx.arg(1).value.handle, h(12));
    let args = cx.args();
    assert_eq!(args.len(), 2);
    assert_eq!(args[0].value.handle, h(11));
    assert_eq!(args[0].value.type_of, None);
}

#[test]
fn array_element_operations() {
    let a = NapiArray::new(h(1));
    let value = NapiRef::new(NapiString::new(h(2), "xxx"));
    assert_eq!(a.set_element(12, &value), NapiElementOp::SetElement { array: h(1), index: 12, value: h(2) });
    assert_eq!(a.has_element(3), NapiElementOp::HasElement { array: h(1), index: 3 });
    assert_eq!(a.delete_element(0), NapiElementOp::DeleteElement { array: h(1), index: 0 });
}

#[test]
fn thread_environment_nests() {
    let mut t = ThreadEnv::new();
    assert_eq!(t.current(), None);
    let outer = t.bind(Env { raw: 10 });
    assert_eq!(outer, Env { raw: 0 });
    assert_eq!(t.current(), Some(Env { raw: 10 }));
    let inner = t.bind(Env { raw: 20 });
    assert_eq!(inner, Env { raw: 10 });
    assert_eq!(t.current(), Some(Env { raw: 20 }));
    t.restore(inner);
    assert_eq!(t.current(), Some(Env { raw: 10 }));
    t.restore(outer);
    assert_eq!(t.current(), None);
}

#[test]
fn callback_ends() {
    assert!(matches!(exec_reply(CallbackEnd::Finished(Ok(h(3)))), ExecReply::Return(x) if x == h(3)));
    assert!(matches!(exec_reply(CallbackEnd::Finished(Err(h(4)))), ExecReply::Throw(x) if x == h(4)));
    match exec_reply(CallbackEnd::Panicked(Some("boom".to_string()))) {
        ExecReply::ThrowError(m) => assert_eq!(m, "PANIC: boom"),
        other => panic!("unexpected {:?}", other),
    }
    match exec_reply(CallbackEnd::Panicked(None)) {
        ExecReply::ThrowError(m) => assert_eq!(m, "PANIC: Unknown error"),
        other => panic!("unexpected {:?}", other),
    }
}
