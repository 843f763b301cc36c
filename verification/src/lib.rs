use vstd::prelude::*;

pub mod conninfo;
pub mod connection;
pub mod debug;
pub mod errors;
pub mod js_types;
pub mod napi;
pub mod response;
pub mod runner;
pub mod ffi;
pub mod notices;
pub mod notifications;
pub mod text;
pub mod version;

verus! {

} // verus!
