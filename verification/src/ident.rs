//! Collection identifiers.
//!
//! The engine assigns every collection a 128-bit unique identifier, carried
//! in the collection handle in textual form. Each operation parses the text
//! back; a malformed identifier is the distinct `InvalidUuid` failure, apart
//! from ordinary validation failures.

use vstd::prelude::*;

use crate::error::{ChromaError, ChromaErrorCode};

verus! {

/// What `uuid::Uuid::parse_str` returns for a text: the 128-bit value of the
/// identifier it denotes, or nothing when the text is malformed; a function
/// of the text alone.
pub uninterp spec fn uuid_of(s: Seq<char>) -> Option<u128>;

/// Relies on `uuid::Uuid::parse_str`: it accepts the textual forms of a
/// unique identifier (hyphenated, simple, braced or URN), depending on the
/// text alone, and renders a parse error otherwise. The accepted value is
/// returned as its 128 bits.
#[verifier::external_body]
pub(crate) fn parse_uuid(s: &str) -> (r: Result<u128, String>)
    ensures
        r is Ok <==> uuid_of(s@) is Some,
        r matches Ok(v) ==> uuid_of(s@) == Some(v),
{
    match uuid::Uuid::parse_str(s) {
        Ok(u) => Ok(u.as_u128()),
        Err(e) => Err(e.to_string()),
    }
}

/// Detail text carrying the identifier parser's rendered error.
pub open spec fn uuid_error_detail(d: Seq<char>) -> bool {
    exists|msg: Seq<char>| d == "UUID parse error: "@ + msg
}

/// Parses a collection identifier out of its textual form, reporting a
/// malformed identifier as `InvalidUuid` under the given entry-point name.
pub fn parse_collection_id(id: &str, source: &str) -> (r: Result<u128, ChromaError>)
    ensures
        r is Ok <==> uuid_of(id@) is Some,
        r matches Ok(v) ==> uuid_of(id@) == Some(v),
        r matches Err(e) ==> {
            &&& e.code is InvalidUuid
            &&& e.message matches Some(m) && m@ == "Invalid collection UUID"@
            &&& e.source matches Some(s) && s@ == source@
            &&& e.details matches Some(d) && uuid_error_detail(d@)
        },
{
    match parse_uuid(id) {
        Ok(v) => Ok(v),
        Err(msg) => {
            let details = String::from_str("UUID parse error: ").concat(msg.as_str());
            proof {
                assert(details@ == "UUID parse error: "@ + msg@);
            }
            Err(ChromaError::with_details(
                ChromaErrorCode::InvalidUuid,
                "Invalid collection UUID",
                source,
                details,
            ))
        },
    }
}

} // verus!
