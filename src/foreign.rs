//! What the library takes on trust from its outside crates.
use vstd::prelude::*;

verus! {

/// serde_json's JSON document. The library carries payloads and failure
/// reasons verbatim and never looks inside one.
#[verifier::external_type_specification]
#[verifier::external_body]
pub struct ExValue(serde_json::Value);

/// Relies on the `Clone` that serde_json derives for `Value`: the copy is the
/// same document.
pub assume_specification[ <serde_json::Value as Clone>::clone ](v: &serde_json::Value) -> (r:
    serde_json::Value)
    ensures
        r == *v,
;

/// tokio-util's cancellation token, the shutdown signal shared by the worker
/// loop and every handler. The library only hands it on.
#[verifier::external_type_specification]
#[verifier::external_body]
pub struct ExCancellationToken(tokio_util::sync::CancellationToken);

/// Relies on tokio_util's `CancellationToken::new`: a fresh token.
pub assume_specification[ tokio_util::sync::CancellationToken::new ]() ->
    tokio_util::sync::CancellationToken;

/// Relies on time's `OffsetDateTime::now_utc` and `unix_timestamp`: the
/// current time in whole seconds since the Unix epoch. Nothing is promised of
/// its value.
#[verifier::external_body]
pub(crate) fn now_unix() -> (r: i64) {
    time::OffsetDateTime::now_utc().unix_timestamp()
}

/// Relies on `xid::new` and xid's `Display`: a fresh id, written as twenty
/// characters of xid's base32hex alphabet.
#[verifier::external_body]
pub(crate) fn new_xid() -> (r: String)
    ensures
        r@.len() == 20,
{
    xid::new().to_string()
}

} // verus!
