# libpq

LibPQ (PostgreSQL's client library) exposed as a NodeJS module, with the
decisions about what LibPQ's answers mean written in Verus and proved.

## Layout

- `src/` — the verified library.
  - `runner.rs`: the state machine of a runner (send a request once the
    connection is writable, flush it, read and deliver every result until
    "no more results", stop on the first error), with its laws.
  - `connection.rs`, `response.rs`, `conninfo.rs`, `notices.rs`,
    `notifications.rs`: statuses and their codes, return codes, error
    messages, connection options and result tables, each from the raw values
    LibPQ hands back.
  - `version.rs`, `text.rs`, `ffi.rs`, `errors.rs`, `debug.rs`: version
    strings, decimal formatting, trimming, integer parsing, UTF-8 decoding.
  - `napi/`, `js_types.rs`: a typed view of N-API values (type codes, bigint
    words, calls of functions and array methods, thrown errors).
- `app/` — the NodeJS module itself (Neon): the calls into LibPQ, OpenSSL and
  the poller, the runner threads, and the JavaScript glue.
- `tests/` — tests of the library on concrete values.
