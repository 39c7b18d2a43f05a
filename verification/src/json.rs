//! Validation of JSON-encoded payloads.
//!
//! Metadata rows and filter criteria cross the boundary as JSON text. The
//! translators only need to know whether the text parses — the typed value is
//! rebuilt by the engine adapter from the validated text — so the checks here
//! hand back either success or the parser's rendered error for the detail
//! string of the failure report. The engine's own typed validation of the
//! payloads runs behind the adapter; its rejections come back classified as
//! validation failures and are reported under the validation code.

use vstd::prelude::*;

verus! {

/// Whether `serde_json` parses the text as a JSON value; a function of the
/// text alone.
pub uninterp spec fn json_value_ok(s: Seq<char>) -> bool;

/// Whether `serde_json` parses the text as a JSON object; a function of the
/// text alone.
pub uninterp spec fn json_object_ok(s: Seq<char>) -> bool;

/// Relies on `serde_json::from_str::<serde_json::Value>`: it succeeds exactly
/// on well-formed JSON text, depending on the text alone, and renders a parse
/// error otherwise.
#[verifier::external_body]
pub(crate) fn check_json_value(s: &str) -> (r: Result<(), String>)
    ensures
        r is Ok <==> json_value_ok(s@),
{
    match serde_json::from_str::<serde_json::Value>(s) {
        Ok(_) => Ok(()),
        Err(e) => Err(e.to_string()),
    }
}

/// Relies on `serde_json::from_str::<serde_json::Map<String, serde_json::Value>>`:
/// it succeeds exactly on JSON text whose top level is an object, depending
/// on the text alone, and renders a parse error otherwise.
#[verifier::external_body]
pub(crate) fn check_json_object(s: &str) -> (r: Result<(), String>)
    ensures
        r is Ok <==> json_object_ok(s@),
{
    match serde_json::from_str::<serde_json::Map<String, serde_json::Value>>(s) {
        Ok(_) => Ok(()),
        Err(e) => Err(e.to_string()),
    }
}

} // verus!
