//! Version strings of LibPQ, OpenSSL and the PostgreSQL server.

use vstd::prelude::*;
use vstd::string::*;
use crate::text::{decimal, decimal_int, format_int, push_char, push_decimal, push_decimal_signed};

verus! {

/// `v / 10000` with Rust's truncating division.
pub open spec fn version_major(v: int) -> int {
    if v >= 0 {
        v / 10000
    } else {
        -((-v) / 10000)
    }
}

/// `v % 10000` with Rust's remainder, which takes the sign of `v`.
pub open spec fn version_minor(v: int) -> int {
    v - version_major(v) * 10000
}

/// `"{major}.{minor}"` for a version number as LibPQ encodes it
/// (`major * 10000 + minor`).
pub open spec fn version_text(v: int) -> Seq<char> {
    decimal_int(version_major(v)) + seq!['.'] + decimal_int(version_minor(v))
}

/// Formats a version number as LibPQ encodes it (see
/// [PQlibVersion](https://www.postgresql.org/docs/current/libpq-misc.html#LIBPQ-PQLIBVERSION)).
pub fn format_version(version: i32) -> (r: String)
    ensures
        r@ == version_text(version as int),
{
    let v = version as i64;
    let (major, minor): (i64, i64) = if v >= 0 {
        (v / 10000, v % 10000)
    } else {
        (0 - ((0 - v) / 10000), 0 - ((0 - v) % 10000))
    };
    assert(major == version_major(v as int));
    assert(minor == version_minor(v as int));
    let mut s = format_int(major);
    push_char(&mut s, '.');
    push_decimal_signed(&mut s, minor as i128);
    assert(s@ =~= version_text(version as int));
    s
}

/// Returns the LibPQ version as a `String`, from what `PQlibVersion` returned.
pub fn libpq_version(version: i32) -> (r: String)
    ensures
        r@ == version_text(version as int),
{
    format_version(version)
}

/// Returns the server version as a `String`, from what `PQserverVersion`
/// returned: `0` means that the connection is bad.
///
/// See [`PQserverVersion`](https://www.postgresql.org/docs/current/libpq-status.html#LIBPQ-PQSERVERVERSION)
pub fn server_version(version: i32) -> (r: Option<String>)
    ensures
        version == 0 ==> r is None,
        version != 0 ==> (r matches Some(s) && s@ == version_text(version as int)),
{
    if version == 0 {
        None
    } else {
        Some(format_version(version))
    }
}

/// Whether LibPQ is thread safe, from what `PQisthreadsafe` returned.
pub fn libpq_threadsafe(code: i32) -> (r: bool)
    ensures
        r == (code == 1),
{
    code == 1
}

// ===== OPENSSL ===============================================================

/// The major version in an `OPENSSL_VERSION_NUMBER` (bits 28 to 31).
pub open spec fn openssl_major(v: u64) -> u64 {
    (v >> 28u64) & 0xfu64
}

/// The minor version in an `OPENSSL_VERSION_NUMBER` (bits 20 to 27).
pub open spec fn openssl_minor(v: u64) -> u64 {
    (v >> 20u64) & 0xffu64
}

/// The patch version in an `OPENSSL_VERSION_NUMBER` (bits 4 to 19).
pub open spec fn openssl_patch(v: u64) -> u64 {
    (v >> 4u64) & 0xffffu64
}

/// The pre-release number in an `OPENSSL_VERSION_NUMBER` (bits 0 to 3).
pub open spec fn openssl_pre(v: u64) -> u64 {
    v & 0xfu64
}

/// `"{major}.{minor}.{patch}"`, followed by `"-pre{pre}"` for a pre-release.
pub open spec fn openssl_text(v: u64) -> Seq<char> {
    let base = decimal(openssl_major(v) as nat) + seq!['.'] + decimal(openssl_minor(v) as nat)
        + seq!['.'] + decimal(openssl_patch(v) as nat);
    if openssl_pre(v) == 0 {
        base
    } else {
        base + "-pre"@ + decimal(openssl_pre(v) as nat)
    }
}

/// Returns the OpenSSL version as a `String`, from the number that
/// `OpenSSL_version_num` returned.
///
/// See [OPENSSL_VERSION_NUMBER](https://github.com/openssl/openssl/blob/master/include/openssl/opensslv.h.in#L92)
pub fn openssl_version(version: u64) -> (r: String)
    ensures
        r@ == openssl_text(version),
{
    let major = (version >> 28) & 0xF;
    let minor = (version >> 20) & 0xFF;
    let patch = (version >> 4) & 0xFFFF;
    let pre = version & 0xF;
    let mut s = String::new();
    push_decimal(&mut s, major as u128);
    push_char(&mut s, '.');
    push_decimal(&mut s, minor as u128);
    push_char(&mut s, '.');
    push_decimal(&mut s, patch as u128);
    if pre == 0 {
        assert(s@ =~= openssl_text(version));
    } else {
        s.append("-pre");
        push_decimal(&mut s, pre as u128);
        assert(s@ =~= openssl_text(version));
    }
    s
}

/// The parts of an `OPENSSL_VERSION_NUMBER` put it back together, and each
/// fits its field.
pub proof fn openssl_version_parts(v: u64)
    requires
        v < 0x1_0000_0000,
    ensures
        openssl_major(v) < 16,
        openssl_minor(v) < 256,
        openssl_patch(v) < 65536,
        openssl_pre(v) < 16,
        v == openssl_major(v) * 0x1000_0000 + openssl_minor(v) * 0x10_0000 + openssl_patch(v)
            * 0x10 + openssl_pre(v),
{
    assert(((v >> 28u64) & 0xfu64) < 16 && ((v >> 20u64) & 0xffu64) < 256 && ((v >> 4u64)
        & 0xffffu64) < 65536 && (v & 0xfu64) < 16) by (bit_vector);
    assert(v < 0x1_0000_0000 ==> v == ((v >> 28u64) & 0xfu64) * 0x1000_0000 + ((v >> 20u64)
        & 0xffu64) * 0x10_0000 + ((v >> 4u64) & 0xffffu64) * 0x10 + (v & 0xfu64)) by (bit_vector);
}

/// The major and minor parts of a LibPQ version number put it back together.
pub proof fn version_parts(v: int)
    ensures
        version_major(v) * 10000 + version_minor(v) == v,
        v >= 0 ==> 0 <= version_minor(v) < 10000,
        v < 0 ==> -10000 < version_minor(v) <= 0,
{
}

} // verus!
