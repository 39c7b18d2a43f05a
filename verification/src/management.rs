//! Collection management: creating and resolving collections.
//!
//! Both operations translate raw name, tenant and database inputs into typed
//! requests, falling back to the default namespace when tenant or database is
//! absent. Collection creation additionally validates the optional index
//! configuration and metadata payloads, which cross the boundary as JSON
//! text; translation fails before the engine is reached when either payload
//! is not a JSON object.

use vstd::prelude::*;
use vstd::string::StringExecFns;

use crate::error::{errs_carrying_details, errs_with, ChromaError, ChromaErrorCode};
use crate::json::{check_json_object, json_object_ok};
use crate::text::{buffer_text, c_bytes_to_string, opt_string_is, opt_text, text_or_default};

verus! {

/// Typed request to create a collection, or resolve it when it already
/// exists and the caller asked for that.
#[derive(Debug)]
pub struct CreateCollectionRequest {
    /// Tenant the collection belongs to.
    pub tenant: String,
    /// Database the collection belongs to.
    pub database: String,
    /// Name of the collection.
    pub name: String,
    /// Index configuration as validated JSON-object text, when given.
    pub config_json: Option<String>,
    /// Collection metadata as validated JSON-object text, when given.
    pub metadata_json: Option<String>,
    /// Whether an existing collection of the same name is returned rather
    /// than reported as a failure.
    pub get_or_create: bool,
}

/// Typed request to resolve an existing collection by name.
#[derive(Debug)]
pub struct GetCollectionRequest {
    /// Tenant the collection belongs to.
    pub tenant: String,
    /// Database the collection belongs to.
    pub database: String,
    /// Name of the collection to resolve.
    pub name: String,
}

/// Whether the raw inputs of collection creation are acceptable: the required
/// pointers are present and each given JSON payload parses as an object.
pub open spec fn create_collection_ok(
    client_present: bool,
    name: Option<Vec<u8>>,
    out_present: bool,
    config_json: Option<Vec<u8>>,
    metadata_json: Option<Vec<u8>>,
) -> bool {
    &&& client_present
    &&& name is Some
    &&& out_present
    &&& (config_json matches Some(b) ==> json_object_ok(buffer_text(b@)))
    &&& (metadata_json matches Some(b) ==> json_object_ok(buffer_text(b@)))
}

/// Validates the raw inputs of collection creation and builds the typed
/// request. The collection name and the output handle are required; tenant
/// and database fall back to the defaults; configuration and metadata are
/// validated as JSON objects and kept as text.
pub fn translate_create_collection(
    client_present: bool,
    name: Option<Vec<u8>>,
    config_json: Option<Vec<u8>>,
    metadata_json: Option<Vec<u8>>,
    get_or_create: bool,
    tenant: Option<Vec<u8>>,
    database: Option<Vec<u8>>,
    collection_out_present: bool,
) -> (r: Result<CreateCollectionRequest, ChromaError>)
    ensures
        r is Ok <==> create_collection_ok(
            client_present,
            name,
            collection_out_present,
            config_json,
            metadata_json,
        ),
        !client_present ==> errs_with(
            r,
            ChromaErrorCode::InvalidArgument,
            "Client handle pointer is null"@,
            "chroma_create_collection"@,
        ),
        client_present && name is None ==> errs_with(
            r,
            ChromaErrorCode::InvalidArgument,
            "Collection name pointer is null"@,
            "chroma_create_collection"@,
        ),
        client_present && name is Some && !collection_out_present ==> errs_with(
            r,
            ChromaErrorCode::InvalidArgument,
            "Collection handle output pointer is null"@,
            "chroma_create_collection"@,
        ),
        client_present && name is Some && collection_out_present && (config_json matches Some(b)
            && !json_object_ok(buffer_text(b@))) ==> errs_carrying_details(
            r,
            ChromaErrorCode::ValidationError,
            "Failed to parse configuration JSON"@,
            "chroma_create_collection"@,
        ),
        client_present && name is Some && collection_out_present && (config_json matches Some(cb)
            ==> json_object_ok(buffer_text(cb@))) && (metadata_json matches Some(b)
            && !json_object_ok(buffer_text(b@))) ==> errs_carrying_details(
            r,
            ChromaErrorCode::ValidationError,
            "Failed to parse metadata JSON"@,
            "chroma_create_collection"@,
        ),
        r matches Ok(q) ==> {
            &&& name matches Some(b) && q.name@ == buffer_text(b@)
            &&& q.tenant@ == text_or_default(tenant, "default_tenant"@)
            &&& q.database@ == text_or_default(database, "default_database"@)
            &&& opt_string_is(q.config_json, opt_text(config_json))
            &&& opt_string_is(q.metadata_json, opt_text(metadata_json))
            &&& q.get_or_create == get_or_create
        },
{
    let source = "chroma_create_collection";
    if !client_present {
        return Err(ChromaError::plain(
            ChromaErrorCode::InvalidArgument,
            "Client handle pointer is null",
            source,
        ));
    }
    let name = match &name {
        Some(b) => c_bytes_to_string(b.as_slice()),
        None => {
            return Err(ChromaError::plain(
                ChromaErrorCode::InvalidArgument,
                "Collection name pointer is null",
                source,
            ));
        },
    };
    if !collection_out_present {
        return Err(ChromaError::plain(
            ChromaErrorCode::InvalidArgument,
            "Collection handle output pointer is null",
            source,
        ));
    }
    let tenant = match &tenant {
        Some(b) => c_bytes_to_string(b.as_slice()),
        None => String::from_str("default_tenant"),
    };
    let database = match &database {
        Some(b) => c_bytes_to_string(b.as_slice()),
        None => String::from_str("default_database"),
    };
    let config_text = match &config_json {
        Some(b) => {
            let s = c_bytes_to_string(b.as_slice());
            match check_json_object(s.as_str()) {
                Ok(_) => Some(s),
                Err(msg) => {
                    return Err(ChromaError::with_details(
                        ChromaErrorCode::ValidationError,
                        "Failed to parse configuration JSON",
                        source,
                        msg,
                    ));
                },
            }
        },
        None => None,
    };
    let metadata_text = match &metadata_json {
        Some(b) => {
            let s = c_bytes_to_string(b.as_slice());
            match check_json_object(s.as_str()) {
                Ok(_) => Some(s),
                Err(msg) => {
                    return Err(ChromaError::with_details(
                        ChromaErrorCode::ValidationError,
                        "Failed to parse metadata JSON",
                        source,
                        msg,
                    ));
                },
            }
        },
        None => None,
    };
    Ok(
        CreateCollectionRequest {
            tenant,
            database,
            name,
            config_json: config_text,
            metadata_json: metadata_text,
            get_or_create,
        },
    )
}

/// Validates the raw inputs of a collection lookup and builds the typed
/// request. The collection name and the output handle are required; tenant
/// and database fall back to the defaults.
pub fn translate_get_collection(
    client_present: bool,
    name: Option<Vec<u8>>,
    tenant: Option<Vec<u8>>,
    database: Option<Vec<u8>>,
    collection_out_present: bool,
) -> (r: Result<GetCollectionRequest, ChromaError>)
    ensures
        r is Ok <==> client_present && name is Some && collection_out_present,
        !client_present ==> errs_with(
            r,
            ChromaErrorCode::InvalidArgument,
            "Client handle pointer is null"@,
            "chroma_get_collection"@,
        ),
        client_present && name is None ==> errs_with(
            r,
            ChromaErrorCode::InvalidArgument,
            "Collection name pointer is null"@,
            "chroma_get_collection"@,
        ),
        client_present && name is Some && !collection_out_present ==> errs_with(
            r,
            ChromaErrorCode::InvalidArgument,
            "Collection handle output pointer is null"@,
            "chroma_get_collection"@,
        ),
        r matches Ok(q) ==> {
            &&& name matches Some(b) && q.name@ == buffer_text(b@)
            &&& q.tenant@ == text_or_default(tenant, "default_tenant"@)
            &&& q.database@ == text_or_default(database, "default_database"@)
        },
{
    let source = "chroma_get_collection";
    if !client_present {
        return Err(ChromaError::plain(
            ChromaErrorCode::InvalidArgument,
            "Client handle pointer is null",
            source,
        ));
    }
    let name = match &name {
        Some(b) => c_bytes_to_string(b.as_slice()),
        None => {
            return Err(ChromaError::plain(
                ChromaErrorCode::InvalidArgument,
                "Collection name pointer is null",
                source,
            ));
        },
    };
    if !collection_out_present {
        return Err(ChromaError::plain(
            ChromaErrorCode::InvalidArgument,
            "Collection handle output pointer is null",
            source,
        ));
    }
    let tenant = match &tenant {
        Some(b) => c_bytes_to_string(b.as_slice()),
        None => String::from_str("default_tenant"),
    };
    let database = match &database {
        Some(b) => c_bytes_to_string(b.as_slice()),
        None => String::from_str("default_database"),
    };
    Ok(GetCollectionRequest { tenant, database, name })
}

} // verus!
