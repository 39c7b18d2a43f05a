//! The uniform error-reporting protocol.
//!
//! Every boundary call produces exactly one [`ChromaError`] describing its
//! outcome: a discriminated code, a human-readable message, the name of the
//! originating entry point, and an optional detail string. Success is a real
//! object carrying [`ChromaErrorCode::Success`] and empty text fields, so the
//! release path on the caller's side is uniform regardless of outcome. Each
//! entry point additionally returns the code's number directly, and the two
//! always agree.

use vstd::prelude::*;

verus! {

/// Discriminated code classifying the outcome of one boundary call, ordered
/// by the layer that caused the failure: argument checking, then local
/// translation and validation, then engine execution.
#[derive(Clone, Copy, PartialEq, Eq, Structural, Debug)]
pub enum ChromaErrorCode {
    Success,
    InvalidArgument,
    InternalError,
    MemoryError,
    NotFound,
    ValidationError,
    InvalidUuid,
    NotImplemented,
}

impl ChromaErrorCode {
    /// The numeric value this code takes in the C call convention.
    pub open spec fn spec_number(self) -> i32 {
        match self {
            ChromaErrorCode::Success => 0,
            ChromaErrorCode::InvalidArgument => 1,
            ChromaErrorCode::InternalError => 2,
            ChromaErrorCode::MemoryError => 3,
            ChromaErrorCode::NotFound => 4,
            ChromaErrorCode::ValidationError => 5,
            ChromaErrorCode::InvalidUuid => 6,
            ChromaErrorCode::NotImplemented => 7,
        }
    }

    /// Numeric value of the code: what every entry point returns directly,
    /// beside the error object written through the out-parameter.
    pub fn number(self) -> (n: i32)
        ensures
            n == self.spec_number(),
    {
        match self {
            ChromaErrorCode::Success => 0,
            ChromaErrorCode::InvalidArgument => 1,
            ChromaErrorCode::InternalError => 2,
            ChromaErrorCode::MemoryError => 3,
            ChromaErrorCode::NotFound => 4,
            ChromaErrorCode::ValidationError => 5,
            ChromaErrorCode::InvalidUuid => 6,
            ChromaErrorCode::NotImplemented => 7,
        }
    }
}

/// Outcome of exactly one boundary call. The caller exclusively owns the
/// object once it is handed out and releases it through the matching free
/// operation of the pointer shim.
#[derive(Debug)]
pub struct ChromaError {
    /// Outcome code.
    pub code: ChromaErrorCode,
    /// Human-readable message; absent only on success objects.
    pub message: Option<String>,
    /// Name of the entry point that produced the outcome.
    pub source: Option<String>,
    /// Additional context, for example an engine error rendered to text.
    pub details: Option<String>,
}

/// Holds when `e` is a failure object carrying exactly `code`, `message` and
/// `source`, with no detail text.
pub open spec fn plain_error(
    e: ChromaError,
    code: ChromaErrorCode,
    message: Seq<char>,
    source: Seq<char>,
) -> bool {
    &&& e.code == code
    &&& e.message matches Some(m) && m@ == message
    &&& e.source matches Some(s) && s@ == source
    &&& e.details is None
}

/// Holds when `e` is a failure object carrying exactly `code`, `message`,
/// `source` and the detail text `details`.
pub open spec fn detailed_error(
    e: ChromaError,
    code: ChromaErrorCode,
    message: Seq<char>,
    source: Seq<char>,
    details: Seq<char>,
) -> bool {
    &&& e.code == code
    &&& e.message matches Some(m) && m@ == message
    &&& e.source matches Some(s) && s@ == source
    &&& e.details matches Some(d) && d@ == details
}

/// Holds when the outcome `r` is a failure object carrying exactly `code`,
/// `message` and `source`, with no detail text.
pub open spec fn errs_with<T>(
    r: Result<T, ChromaError>,
    code: ChromaErrorCode,
    message: Seq<char>,
    source: Seq<char>,
) -> bool {
    r matches Err(e) && plain_error(e, code, message, source)
}

/// Holds when the outcome `r` is a failure object carrying exactly `code`,
/// `message` and `source`, with some detail text.
pub open spec fn errs_detailed<T>(
    r: Result<T, ChromaError>,
    code: ChromaErrorCode,
    message: Seq<char>,
    source: Seq<char>,
    details: Seq<char>,
) -> bool {
    r matches Err(e) && detailed_error(e, code, message, source, details)
}

/// Holds when the outcome `r` is a failure object carrying exactly `code`,
/// `message` and `source`, together with some detail text whose content comes
/// from a lower layer's rendered error.
pub open spec fn errs_carrying_details<T>(
    r: Result<T, ChromaError>,
    code: ChromaErrorCode,
    message: Seq<char>,
    source: Seq<char>,
) -> bool {
    &&& r matches Err(e)
    &&& e.code == code
    &&& e.message matches Some(m) && m@ == message
    &&& e.source matches Some(s) && s@ == source
    &&& e.details is Some
}

/// How a call into the engine failed, as the adapter classifies the
/// engine's own error type: the typed request or filter was rejected by the
/// engine's validation, a named database or collection does not exist, or
/// any other engine or runtime failure.
#[derive(Clone, Copy, PartialEq, Eq, Structural, Debug)]
pub enum EngineFailure {
    Validation,
    NotFound,
    Internal,
}

impl EngineFailure {
    /// The outcome code a failure of this class is reported under.
    pub open spec fn spec_code(self) -> ChromaErrorCode {
        match self {
            EngineFailure::Validation => ChromaErrorCode::ValidationError,
            EngineFailure::NotFound => ChromaErrorCode::NotFound,
            EngineFailure::Internal => ChromaErrorCode::InternalError,
        }
    }
}

/// An engine failure as the adapter hands it back across the suspension
/// point: its class, and the engine's error rendered to text.
#[derive(Debug)]
pub struct EngineError {
    /// Which layer of the engine rejected or failed the call.
    pub failure: EngineFailure,
    /// The engine's error rendered to text, kept for the detail field.
    pub details: String,
}

/// Builds the error object reporting an engine failure: the failure class
/// picks the code and which of the three given messages is used, and the
/// engine's rendered error stands in the detail string.
pub fn engine_report(
    e: EngineError,
    validation_message: &str,
    not_found_message: &str,
    internal_message: &str,
    source: &str,
) -> (r: ChromaError)
    ensures
        detailed_error(
            r,
            e.failure.spec_code(),
            match e.failure {
                EngineFailure::Validation => validation_message@,
                EngineFailure::NotFound => not_found_message@,
                EngineFailure::Internal => internal_message@,
            },
            source@,
            e.details@,
        ),
{
    match e.failure {
        EngineFailure::Validation => ChromaError::with_details(
            ChromaErrorCode::ValidationError,
            validation_message,
            source,
            e.details,
        ),
        EngineFailure::NotFound => ChromaError::with_details(
            ChromaErrorCode::NotFound,
            not_found_message,
            source,
            e.details,
        ),
        EngineFailure::Internal => ChromaError::with_details(
            ChromaErrorCode::InternalError,
            internal_message,
            source,
            e.details,
        ),
    }
}

impl ChromaError {
    /// Builds a new failure object from its parts.
    pub fn new(
        code: ChromaErrorCode,
        message: &str,
        source: &str,
        details: Option<&str>,
    ) -> (r: ChromaError)
        ensures
            r.code == code,
            r.message matches Some(m) && m@ == message@,
            r.source matches Some(s) && s@ == source@,
            details is None ==> r.details is None,
            details matches Some(d) ==> r.details matches Some(rd) && rd@ == d@,
    {
        ChromaError {
            code,
            message: Some(String::from_str(message)),
            source: Some(String::from_str(source)),
            details: match details {
                Some(d) => Some(String::from_str(d)),
                None => None,
            },
        }
    }

    /// Builds the success object: the Success code with empty text fields.
    /// It is intentionally a real object rather than a null sentinel, so the
    /// caller frees every outcome the same way.
    pub fn success() -> (r: ChromaError)
        ensures
            r.code is Success,
            r.message is None,
            r.source is None,
            r.details is None,
    {
        ChromaError { code: ChromaErrorCode::Success, message: None, source: None, details: None }
    }

    /// Builds a failure object whose detail text is an owned string, as
    /// produced when rendering a lower layer's error.
    pub fn with_details(
        code: ChromaErrorCode,
        message: &str,
        source: &str,
        details: String,
    ) -> (r: ChromaError)
        ensures
            detailed_error(r, code, message@, source@, details@),
    {
        ChromaError {
            code,
            message: Some(String::from_str(message)),
            source: Some(String::from_str(source)),
            details: Some(details),
        }
    }

    /// Builds a failure object without detail text.
    pub fn plain(code: ChromaErrorCode, message: &str, source: &str) -> (r: ChromaError)
        ensures
            plain_error(r, code, message@, source@),
    {
        ChromaError {
            code,
            message: Some(String::from_str(message)),
            source: Some(String::from_str(source)),
            details: None,
        }
    }
}

} // verus!
