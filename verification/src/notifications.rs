//! Notifications (`pgNotify`) from `LISTEN` / `NOTIFY`.

use vstd::prelude::*;
use vstd::utf8::*;
use crate::errors::{PQError, PQResult};
use crate::ffi::to_string;

verus! {

/// A notification: its channel, the process ID of the notifying backend, and
/// its optional payload.
#[derive(Debug)]
pub struct PQNotification {
    pub channel: String,
    pub be_pid: i32,
    pub extra: Option<String>,
}

impl PQNotification {
    /// Creates a [`PQNotification`] from the parts of a `pgNotify`: the bytes
    /// of its channel name, the backend's process ID, and the bytes of its
    /// payload (`None` when null). Both names must be valid UTF-8.
    pub fn from_raw(relname: &[u8], be_pid: i32, extra: Option<Vec<u8>>) -> (r: PQResult<PQNotification>)
        ensures
            r is Ok <==> (valid_utf8(relname@) && (extra matches Some(e) ==> valid_utf8(e@))),
            r matches Ok(n) ==> n.channel@ == decode_utf8(relname@) && n.be_pid == be_pid && (
            extra is None <==> n.extra is None) && (extra matches Some(e) ==> (n.extra matches Some(
                x,
            ) && x@ == decode_utf8(e@))),
            r matches Err(err) ==> err.message@ == "Error decoding UTF-8 string"@,
    {
        let channel = match to_string(relname) {
            Ok(c) => c,
            Err(e) => {
                return Err(PQError::from_message(e));
            },
        };
        let extra = match extra {
            None => None,
            Some(bytes) => match to_string(bytes.as_slice()) {
                Ok(x) => Some(x),
                Err(e) => {
                    return Err(PQError::from_message(e));
                },
            },
        };
        Ok(PQNotification { channel, be_pid, extra })
    }
}

} // verus!
