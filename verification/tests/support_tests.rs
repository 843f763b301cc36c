use libpq::debug::{debug_id, DebugIds};
use libpq::errors::PQError;
use libpq::ffi::{to_string, to_string_lossy};
use libpq::js_types::{js_type_of, probe, JsTypeOf, PROBE_COUNT};
use libpq::notices::{notice_text, DefaultNoticeProcessor, NoticeProcessor, NoticeProcessorWrapper};
use libpq::notifications::PQNotification;
use std::cell::RefCell;

#[test]
fn errors_from_messages() {
    assert_eq!(PQError::from_message("boom".to_string()).message, "boom");
    assert_eq!(PQError::from_text("bang").message, "bang");
    assert_eq!(PQError::from_option(Some("x".to_string())).message, "x");
    assert_eq!(PQError::from_option(None).message, "Unknown error");
    assert_eq!(PQError::from_connection_message(None).message, "Unknown error");
    assert_eq!(PQError::from_connection_message(Some("gone".to_string())).message, "gone");
    assert_eq!(PQError::from_text("oops").to_string(), "[LibPQ Error]: oops");
    let e = PQError::from_text("copy me");
    assert_eq!(e.clone().message, "copy me");
}

#[test]
fn utf8_decoding() {
    assert_eq!(to_string(b"hello").unwrap(), "hello");
    assert_eq!(to_string("héllo".as_bytes()).unwrap(), "héllo");
    assert_eq!(to_string(&[0x68, 0xff]).unwrap_err(), "Error decoding UTF-8 string");
    assert_eq!(to_string_lossy(b"plain"), "plain");
    assert_eq!(to_string_lossy(&[0x61, 0xff, 0x62]), "a\u{FFFD}b");
    assert_eq!(to_string_lossy(&[]), "");
}

#[test]
fn notice_texts() {
    assert_eq!(notice_text(None), None);
    assert_eq!(
        notice_text(Some(b"NOTICE:  table \"x\" does not exist, skipping\n".to_vec())),
        Some("NOTICE:  table \"x\" does not exist, skipping".to_string())
    );
    assert_eq!(notice_text(Some(b"\n".to_vec())), Some(String::new()));
    assert_eq!(notice_text(Some(vec![0xff, b' '])), Some("\u{FFFD}".to_string()));
}

struct Collector {
    seen: RefCell<Vec<String>>,
}

impl NoticeProcessor for Collector {
    fn process_notice(&self, message: String) {
        self.seen.borrow_mut().push(message);
    }
}

#[test]
fn notice_processor_wrapper_passes_notices_on() {
    let wrapper = NoticeProcessorWrapper::new(Collector { seen: RefCell::new(vec![]) }, 7);
    assert_eq!(wrapper.id, 7);
    wrapper.process_notice("first".to_string());
    wrapper.process_notice("second".to_string());
    assert_eq!(*wrapper.notice_processor.seen.borrow(), vec!["first", "second"]);
}

#[test]
fn default_notice_processor_line() {
    let processor = DefaultNoticeProcessor::new(3);
    assert_eq!(processor.id, 3);
    assert_eq!(processor.notice_line("hello"), ">>> from Postgres >>> hello");
}

#[test]
fn notifications() {
    let n = PQNotification::from_raw(b"events", 4242, Some(b"payload".to_vec())).unwrap();
    assert_eq!(n.channel, "events");
    assert_eq!(n.be_pid, 4242);
    assert_eq!(n.extra, Some("payload".to_string()));
    let n = PQNotification::from_raw(b"events", 1, None).unwrap();
    assert_eq!(n.extra, None);
    let e = PQNotification::from_raw(&[0xff], 1, None).unwrap_err();
    assert_eq!(e.message, "Error decoding UTF-8 string");
    let e = PQNotification::from_raw(b"ok", 1, Some(vec![0xc0])).unwrap_err();
    assert_eq!(e.message, "Error decoding UTF-8 string");
}

#[test]
fn debug_ids() {
    let mut ids = DebugIds::new();
    assert_eq!(debug_id(&mut ids), 1);
    assert_eq!(debug_id(&mut ids), 2);
    assert_eq!(ids.next, 3);
    let mut ids = DebugIds { next: usize::MAX };
    assert_eq!(debug_id(&mut ids), usize::MAX);
    assert_eq!(ids.next, 0);
}

#[test]
fn js_type_detection() {
    let mut matches = vec![false; PROBE_COUNT];
    assert_eq!(js_type_of(&matches), JsTypeOf::Unknown);
    // an array is also an object: the more specific kind wins
    matches[6] = true;
    matches[23] = true;
    assert_eq!(js_type_of(&matches), JsTypeOf::JsArray);
    let mut matches = vec![false; PROBE_COUNT];
    matches[23] = true;
    assert_eq!(js_type_of(&matches), JsTypeOf::JsObject);
    assert_eq!(probe(0), JsTypeOf::JsBigInt);
    assert_eq!(probe(22), JsTypeOf::JsUint8Array);
    assert_eq!(probe(PROBE_COUNT), JsTypeOf::Unknown);
    // positions past the end of the answers did not match
    assert_eq!(js_type_of(&vec![]), JsTypeOf::Unknown);
    assert_eq!(js_type_of(&vec![false, true]), JsTypeOf::JsBoolean);
    let mut longer = vec![false; PROBE_COUNT + 3];
    longer[PROBE_COUNT + 1] = true;
    assert_eq!(js_type_of(&longer), JsTypeOf::Unknown);
}

#[test]
fn js_type_names() {
    assert_eq!(JsTypeOf::JsBigInt.name(), "bigint");
    assert_eq!(JsTypeOf::JsArray.name(), "Array");
    assert_eq!(JsTypeOf::JsBigUint64Array.name(), "BigUint64Array");
    assert_eq!(JsTypeOf::JsObject.name(), "object");
    assert_eq!(JsTypeOf::Unknown.name(), "[unknown]");
}
