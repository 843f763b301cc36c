//! LibPQ notice processing.

use vstd::prelude::*;
use vstd::string::*;
use crate::ffi::{to_string_lossy, utf8_lossy};
use crate::text::{trim, trim_string};

verus! {

/// What a notice from LibPQ (the bytes of its message, `None` when null)
/// is passed on as: nothing for a null message, else the trimmed text.
pub fn notice_text(raw: Option<Vec<u8>>) -> (r: Option<String>)
    ensures
        raw is None ==> r is None,
        raw matches Some(b) ==> (r matches Some(s) && s@ == trim(utf8_lossy(b@))),
{
    match raw {
        None => None,
        Some(bytes) => {
            let text = to_string_lossy(bytes.as_slice());
            Some(trim_string(text.as_str()))
        },
    }
}

/// The trait that defines a processor of notification events from LibPQ.
pub trait NoticeProcessor {
    fn process_notice(&self, message: String);
}

/// Wraps a [`NoticeProcessor`] with a debugging identifier, so that LibPQ's
/// "extern C" callback can reach a Rust object.
pub struct NoticeProcessorWrapper<P: NoticeProcessor> {
    pub id: usize,
    pub notice_processor: P,
}

impl<P: NoticeProcessor> NoticeProcessorWrapper<P> {
    /// Wraps `notice_processor` under the identifier `id`.
    pub fn new(notice_processor: P, id: usize) -> (w: NoticeProcessorWrapper<P>)
        ensures
            w.id == id,
            w.notice_processor == notice_processor,
    {
        NoticeProcessorWrapper { id, notice_processor }
    }

    /// Passes a notice on to the wrapped processor.
    pub fn process_notice(&self, message: String) {
        self.notice_processor.process_notice(message);
    }
}

/// The default notice processor simply dumps notices to the console, one
/// line each (see [`DefaultNoticeProcessor::notice_line`]).
#[derive(Debug)]
pub struct DefaultNoticeProcessor {
    pub id: usize,
}

impl DefaultNoticeProcessor {
    /// A default processor with the debugging identifier `id`.
    pub fn new(id: usize) -> (p: DefaultNoticeProcessor)
        ensures
            p.id == id,
    {
        DefaultNoticeProcessor { id }
    }

    /// The line written for a notice: `>>> from Postgres >>> <message>`.
    pub fn notice_line(&self, message: &str) -> (line: String)
        ensures
            line@ == ">>> from Postgres >>> "@ + message@,
    {
        let mut line = String::from_str(">>> from Postgres >>> ");
        line.append(message);
        line
    }
}

} // verus!
