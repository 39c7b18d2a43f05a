//! Record operations on a collection: add, update, upsert, delete, get,
//! query and count.
//!
//! Each operation validates its raw inputs in a fixed, fail-fast order —
//! required pointers first, then per-row array decoding, then JSON-encoded
//! payloads, then the collection identifier — and builds the engine's typed
//! request only when every local check passed. The engine is never reached
//! with untranslated input. Id rows are never optional; embedding rows are
//! required by add, while update and upsert treat them as independently
//! optional per row. Embedding components are carried as IEEE-754
//! single-precision bit patterns; the pointer shim converts to and from
//! floats at the boundary.

use vstd::prelude::*;
use vstd::string::StringExecFns;

use crate::collection::ChromaCollection;
use crate::decimal::{dec_str, usize_to_string};
use crate::error::{errs_carrying_details, errs_detailed, errs_with, ChromaError, ChromaErrorCode};
use crate::ident::{parse_collection_id, uuid_of};
use crate::json::{check_json_value, json_value_ok};
use crate::rows::{
    copy_optional_embedding_rows, decode_optional_rows, parse_metadata_rows,
    require_embedding_rows, require_id_rows,
};
use crate::rows::{
    embeddings_copied, first_absent, first_bad_metadata, metadata_index_detail, metadata_rows_ok,
    opt_embeddings_copied, opt_rows_decode, rows_present, strings_decode,
};
use crate::text::{buffer_text, c_bytes_to_string, opt_string_is, opt_text};

verus! {

/// Typed request to add records to a collection.
#[derive(Debug)]
pub struct AddRequest {
    /// Tenant of the collection.
    pub tenant: String,
    /// Database of the collection.
    pub database: String,
    /// Parsed collection identifier.
    pub collection_id: u128,
    /// One id per record.
    pub ids: Vec<String>,
    /// One embedding per record, as component bit patterns.
    pub embeddings: Vec<Vec<u32>>,
    /// Optional document per record.
    pub documents: Option<Vec<Option<String>>>,
    /// Optional metadata per record, as validated JSON-object text.
    pub metadatas_json: Option<Vec<Option<String>>>,
}

/// Typed request to update existing records of a collection. Every payload
/// but the ids is independently optional, per array and per row.
#[derive(Debug)]
pub struct UpdateRequest {
    /// Tenant of the collection.
    pub tenant: String,
    /// Database of the collection.
    pub database: String,
    /// Parsed collection identifier.
    pub collection_id: u128,
    /// One id per record.
    pub ids: Vec<String>,
    /// Optional embedding per record; an absent row leaves the record's
    /// embedding unchanged.
    pub embeddings: Option<Vec<Option<Vec<u32>>>>,
    /// Optional document per record.
    pub documents: Option<Vec<Option<String>>>,
    /// Optional metadata per record, as validated JSON-object text.
    pub metadatas_json: Option<Vec<Option<String>>>,
}

/// Typed request to upsert records into a collection: added when absent,
/// updated when present. Every payload but the ids is independently
/// optional, per array and per row.
#[derive(Debug)]
pub struct UpsertRequest {
    /// Tenant of the collection.
    pub tenant: String,
    /// Database of the collection.
    pub database: String,
    /// Parsed collection identifier.
    pub collection_id: u128,
    /// One id per record.
    pub ids: Vec<String>,
    /// Optional embedding per record; an absent row means no embedding is
    /// supplied for that id.
    pub embeddings: Option<Vec<Option<Vec<u32>>>>,
    /// Optional document per record.
    pub documents: Option<Vec<Option<String>>>,
    /// Optional metadata per record, as validated JSON-object text.
    pub metadatas_json: Option<Vec<Option<String>>>,
}

/// Typed request to delete records of a collection by ids, by filter
/// criteria, or both.
#[derive(Debug)]
pub struct DeleteRequest {
    /// Tenant of the collection.
    pub tenant: String,
    /// Database of the collection.
    pub database: String,
    /// Parsed collection identifier.
    pub collection_id: u128,
    /// Ids to delete, when given.
    pub ids: Option<Vec<String>>,
    /// Metadata filter as validated JSON text, when given.
    pub where_json: Option<String>,
    /// Document-content filter as validated JSON text, when given.
    pub where_document_json: Option<String>,
}

/// Typed request to read records of a collection by ids or filter criteria.
#[derive(Debug)]
pub struct GetRequest {
    /// Tenant of the collection.
    pub tenant: String,
    /// Database of the collection.
    pub database: String,
    /// Parsed collection identifier.
    pub collection_id: u128,
    /// Ids to read, when given.
    pub ids: Option<Vec<String>>,
    /// Metadata filter as validated JSON text, when given.
    pub where_json: Option<String>,
    /// Document-content filter as validated JSON text, when given.
    pub where_document_json: Option<String>,
    /// Upper bound on returned rows, when positive.
    pub limit: Option<u32>,
    /// Number of rows to skip.
    pub offset: u32,
    /// Caller-selected optional response fields to materialize, in order.
    pub selection: Vec<String>,
}

/// Typed request for a similarity query with one dense embedding.
#[derive(Debug)]
pub struct QueryRequest {
    /// Tenant of the collection.
    pub tenant: String,
    /// Database of the collection.
    pub database: String,
    /// Parsed collection identifier.
    pub collection_id: u128,
    /// The query embedding, as component bit patterns.
    pub embedding: Vec<u32>,
    /// Number of nearest records asked for.
    pub n_results: u32,
    /// Metadata filter as validated JSON text, when given.
    pub where_json: Option<String>,
    /// Document-content filter as validated JSON text, when given.
    pub where_document_json: Option<String>,
    /// Caller-selected optional response fields to materialize, in order.
    pub selection: Vec<String>,
}

/// Typed request for the number of records in a collection.
#[derive(Debug)]
pub struct CountRequest {
    /// Tenant of the collection.
    pub tenant: String,
    /// Database of the collection.
    pub database: String,
    /// Parsed collection identifier.
    pub collection_id: u128,
}

/// The ordered names of the caller-selected optional response fields.
pub open spec fn selection_names(e: bool, m: bool, d: bool, dist: bool) -> Seq<Seq<char>> {
    (if e {
        seq!["embeddings"@]
    } else {
        Seq::<Seq<char>>::empty()
    }) + (if m {
        seq!["metadatas"@]
    } else {
        Seq::<Seq<char>>::empty()
    }) + (if d {
        seq!["documents"@]
    } else {
        Seq::<Seq<char>>::empty()
    }) + (if dist {
        seq!["distances"@]
    } else {
        Seq::<Seq<char>>::empty()
    })
}

/// Holds when the strings `v` carry exactly the texts `names`.
pub open spec fn selection_is(v: Seq<String>, names: Seq<Seq<char>>) -> bool {
    &&& v.len() == names.len()
    &&& forall|i: int| 0 <= i < v.len() ==> (#[trigger] v[i])@ == names[i]
}

/// Builds the ordered list of caller-selected optional response fields.
pub fn build_selection(e: bool, m: bool, d: bool, dist: bool) -> (r: Vec<String>)
    ensures
        selection_is(r@, selection_names(e, m, d, dist)),
{
    let mut out: Vec<String> = Vec::new();
    if e {
        out.push(String::from_str("embeddings"));
    }
    if m {
        out.push(String::from_str("metadatas"));
    }
    if d {
        out.push(String::from_str("documents"));
    }
    if dist {
        out.push(String::from_str("distances"));
    }
    out
}

/// Whether the given optional filters are acceptable: each present filter
/// must be well-formed JSON text.
pub open spec fn where_ok(where_json: Option<Vec<u8>>, where_doc: Option<Vec<u8>>) -> bool {
    &&& (where_json matches Some(b) ==> json_value_ok(buffer_text(b@)))
    &&& (where_doc matches Some(b) ==> json_value_ok(buffer_text(b@)))
}

/// Detail text carrying the filter parser's rendered error.
pub open spec fn filter_error_detail(d: Seq<char>) -> bool {
    exists|msg: Seq<char>| d == "Filter creation error: "@ + msg
}

/// Decodes and validates the optional filter pair. Each present filter must
/// parse as JSON; a failure is a validation report carrying the parser's
/// rendered error.
pub fn parse_where_filters(
    where_json: &Option<Vec<u8>>,
    where_doc: &Option<Vec<u8>>,
    source: &str,
) -> (r: Result<(Option<String>, Option<String>), ChromaError>)
    ensures
        r is Ok <==> where_ok(*where_json, *where_doc),
        r matches Ok(p) ==> opt_string_is(p.0, opt_text(*where_json)) && opt_string_is(
            p.1,
            opt_text(*where_doc),
        ),
        r is Err ==> errs_carrying_details(
            r,
            ChromaErrorCode::ValidationError,
            "Failed to create where filters"@,
            source@,
        ),
        r matches Err(e) ==> e.details matches Some(d) && filter_error_detail(d@),
{
    let wj = match where_json {
        Some(b) => {
            let s = c_bytes_to_string(b.as_slice());
            match check_json_value(s.as_str()) {
                Ok(_) => Some(s),
                Err(msg) => {
                    let details = String::from_str("Filter creation error: ").concat(msg.as_str());
                    proof {
                        assert(details@ == "Filter creation error: "@ + msg@);
                    }
                    return Err(ChromaError::with_details(
                        ChromaErrorCode::ValidationError,
                        "Failed to create where filters",
                        source,
                        details,
                    ));
                },
            }
        },
        None => None,
    };
    let wd = match where_doc {
        Some(b) => {
            let s = c_bytes_to_string(b.as_slice());
            match check_json_value(s.as_str()) {
                Ok(_) => Some(s),
                Err(msg) => {
                    let details = String::from_str("Filter creation error: ").concat(msg.as_str());
                    proof {
                        assert(details@ == "Filter creation error: "@ + msg@);
                    }
                    return Err(ChromaError::with_details(
                        ChromaErrorCode::ValidationError,
                        "Failed to create where filters",
                        source,
                        details,
                    ));
                },
            }
        },
        None => None,
    };
    Ok((wj, wd))
}

/// Whether the inputs every batched mutation shares are acceptable: the
/// handles present, at least one record, every id row present, every
/// metadata row acceptable, and a well-formed collection identifier.
pub open spec fn mutation_ok(
    client_present: bool,
    collection: Option<&ChromaCollection>,
    ids: Option<Vec<Option<Vec<u8>>>>,
    metadatas_json: Option<Vec<Option<Vec<u8>>>>,
) -> bool {
    &&& client_present
    &&& collection matches Some(c) && uuid_of(c.id@) is Some
    &&& ids matches Some(v) && v@.len() > 0 && rows_present(v@)
    &&& metadata_rows_ok(metadatas_json)
}

/// Whether the raw inputs of an add are acceptable: the shared mutation
/// conditions, plus an embedding for every record.
pub open spec fn add_ok(
    client_present: bool,
    collection: Option<&ChromaCollection>,
    ids: Option<Vec<Option<Vec<u8>>>>,
    embeddings: Option<Vec<Option<Vec<u32>>>>,
    metadatas_json: Option<Vec<Option<Vec<u8>>>>,
) -> bool {
    &&& mutation_ok(client_present, collection, ids, metadatas_json)
    &&& embeddings matches Some(em) && rows_present(em@)
}

/// Validates the raw inputs of an add and builds the typed request. Ids and
/// embeddings are required — a null array or a null row of either is a
/// caller error named by index — while metadata and documents are
/// independently optional per array and per row.
pub fn translate_add(
    client_present: bool,
    collection: Option<&ChromaCollection>,
    ids: Option<Vec<Option<Vec<u8>>>>,
    embeddings: Option<Vec<Option<Vec<u32>>>>,
    metadatas_json: Option<Vec<Option<Vec<u8>>>>,
    documents: Option<Vec<Option<Vec<u8>>>>,
) -> (r: Result<AddRequest, ChromaError>)
    ensures
        r is Ok <==> add_ok(client_present, collection, ids, embeddings, metadatas_json),
        !client_present ==> errs_with(
            r,
            ChromaErrorCode::InvalidArgument,
            "Client handle pointer is null"@,
            "chroma_add"@,
        ),
        client_present && collection is None ==> errs_with(
            r,
            ChromaErrorCode::InvalidArgument,
            "Collection handle pointer is null"@,
            "chroma_add"@,
        ),
        client_present && collection is Some && ids is None ==> errs_with(
            r,
            ChromaErrorCode::InvalidArgument,
            "IDs pointer is null"@,
            "chroma_add"@,
        ),
        client_present && collection is Some && (ids matches Some(v) && v@.len() == 0)
            ==> errs_with(
            r,
            ChromaErrorCode::InvalidArgument,
            "IDs count is zero"@,
            "chroma_add"@,
        ),
        client_present && collection is Some && (ids matches Some(v) && v@.len() > 0
            && !rows_present(v@)) ==> errs_detailed(
            r,
            ChromaErrorCode::InvalidArgument,
            "ID pointer is null"@,
            "chroma_add"@,
            "Null ID at index "@ + dec_str(first_absent(ids->Some_0@)),
        ),
        client_present && collection is Some && (ids matches Some(v) && v@.len() > 0
            && rows_present(v@)) && embeddings is None ==> errs_with(
            r,
            ChromaErrorCode::InvalidArgument,
            "Embeddings pointer is null"@,
            "chroma_add"@,
        ),
        client_present && collection is Some && (ids matches Some(v) && v@.len() > 0
            && rows_present(v@)) && (embeddings matches Some(em) && !rows_present(em@))
            ==> errs_detailed(
            r,
            ChromaErrorCode::InvalidArgument,
            "Embedding pointer is null"@,
            "chroma_add"@,
            "Null embedding at index "@ + dec_str(first_absent(embeddings->Some_0@)),
        ),
        client_present && collection is Some && (ids matches Some(v) && v@.len() > 0
            && rows_present(v@)) && (embeddings matches Some(em) && rows_present(em@))
            && !metadata_rows_ok(metadatas_json) ==> (errs_carrying_details(
            r,
            ChromaErrorCode::ValidationError,
            "Invalid metadata JSON"@,
            "chroma_add"@,
        ) && (r matches Err(e) && e.details matches Some(d) && metadata_index_detail(
            d@,
            first_bad_metadata(metadatas_json->Some_0@),
        ))),
        client_present && collection is Some && (ids matches Some(v) && v@.len() > 0
            && rows_present(v@)) && (embeddings matches Some(em) && rows_present(em@))
            && metadata_rows_ok(metadatas_json) && uuid_of(collection->Some_0.id@) is None
            ==> errs_carrying_details(
            r,
            ChromaErrorCode::InvalidUuid,
            "Invalid collection UUID"@,
            "chroma_add"@,
        ),
        r matches Ok(q) ==> {
            &&& collection matches Some(c) && q.tenant@ == c.tenant@ && q.database@ == c.database@
                && uuid_of(c.id@) == Some(q.collection_id)
            &&& ids matches Some(v) && strings_decode(v@, q.ids@)
            &&& embeddings matches Some(em) && embeddings_copied(em@, q.embeddings@)
            &&& opt_rows_decode(metadatas_json, q.metadatas_json)
            &&& opt_rows_decode(documents, q.documents)
        },
{
    let source = "chroma_add";
    if !client_present {
        return Err(ChromaError::plain(
            ChromaErrorCode::InvalidArgument,
            "Client handle pointer is null",
            source,
        ));
    }
    let collection = match collection {
        Some(c) => c,
        None => {
            return Err(ChromaError::plain(
                ChromaErrorCode::InvalidArgument,
                "Collection handle pointer is null",
                source,
            ));
        },
    };
    let ids_rows = match &ids {
        Some(v) => v,
        None => {
            return Err(ChromaError::plain(
                ChromaErrorCode::InvalidArgument,
                "IDs pointer is null",
                source,
            ));
        },
    };
    if ids_rows.len() == 0 {
        return Err(ChromaError::plain(
            ChromaErrorCode::InvalidArgument,
            "IDs count is zero",
            source,
        ));
    }
    let ids_vec = match require_id_rows(ids_rows, source) {
        Ok(v) => v,
        Err(e) => {
            return Err(e);
        },
    };
    let embeddings_vec = match &embeddings {
        Some(em) => match require_embedding_rows(em, source) {
            Ok(v) => v,
            Err(e) => {
                return Err(e);
            },
        },
        None => {
            return Err(ChromaError::plain(
                ChromaErrorCode::InvalidArgument,
                "Embeddings pointer is null",
                source,
            ));
        },
    };
    let metadatas_vec = match &metadatas_json {
        Some(m) => match parse_metadata_rows(m, source) {
            Ok(v) => Some(v),
            Err(e) => {
                return Err(e);
            },
        },
        None => None,
    };
    let documents_vec = match &documents {
        Some(d) => Some(decode_optional_rows(d)),
        None => None,
    };
    let collection_id = match parse_collection_id(collection.id.as_str(), source) {
        Ok(v) => v,
        Err(e) => {
            return Err(e);
        },
    };
    Ok(
        AddRequest {
            tenant: collection.tenant.clone(),
            database: collection.database.clone(),
            collection_id,
            ids: ids_vec,
            embeddings: embeddings_vec,
            documents: documents_vec,
            metadatas_json: metadatas_vec,
        },
    )
}

/// Validates the raw inputs of an update and builds the typed request. Only
/// the ids are required; an absent embedding row leaves that record's
/// embedding unchanged, and metadata and documents are independently
/// optional per array and per row.
pub fn translate_update(
    client_present: bool,
    collection: Option<&ChromaCollection>,
    ids: Option<Vec<Option<Vec<u8>>>>,
    embeddings: Option<Vec<Option<Vec<u32>>>>,
    metadatas_json: Option<Vec<Option<Vec<u8>>>>,
    documents: Option<Vec<Option<Vec<u8>>>>,
) -> (r: Result<UpdateRequest, ChromaError>)
    ensures
        r is Ok <==> mutation_ok(client_present, collection, ids, metadatas_json),
        !client_present ==> errs_with(
            r,
            ChromaErrorCode::InvalidArgument,
            "Client handle pointer is null"@,
            "chroma_update"@,
        ),
        client_present && collection is None ==> errs_with(
            r,
            ChromaErrorCode::InvalidArgument,
            "Collection handle pointer is null"@,
            "chroma_update"@,
        ),
        client_present && collection is Some && ids is None ==> errs_with(
            r,
            ChromaErrorCode::InvalidArgument,
            "IDs pointer is null"@,
            "chroma_update"@,
        ),
        client_present && collection is Some && (ids matches Some(v) && v@.len() == 0)
            ==> errs_with(
            r,
            ChromaErrorCode::InvalidArgument,
            "IDs count is zero"@,
            "chroma_update"@,
        ),
        client_present && collection is Some && (ids matches Some(v) && v@.len() > 0
            && !rows_present(v@)) ==> errs_detailed(
            r,
            ChromaErrorCode::InvalidArgument,
            "ID pointer is null"@,
            "chroma_update"@,
            "Null ID at index "@ + dec_str(first_absent(ids->Some_0@)),
        ),
        client_present && collection is Some && (ids matches Some(v) && v@.len() > 0
            && rows_present(v@)) && !metadata_rows_ok(metadatas_json) ==> (errs_carrying_details(
            r,
            ChromaErrorCode::ValidationError,
            "Invalid metadata JSON"@,
            "chroma_update"@,
        ) && (r matches Err(e) && e.details matches Some(d) && metadata_index_detail(
            d@,
            first_bad_metadata(metadatas_json->Some_0@),
        ))),
        client_present && collection is Some && (ids matches Some(v) && v@.len() > 0
            && rows_present(v@)) && metadata_rows_ok(metadatas_json) && uuid_of(
            collection->Some_0.id@,
        ) is None ==> errs_carrying_details(
            r,
            ChromaErrorCode::InvalidUuid,
            "Invalid collection UUID"@,
            "chroma_update"@,
        ),
        r matches Ok(q) ==> {
            &&& collection matches Some(c) && q.tenant@ == c.tenant@ && q.database@ == c.database@
                && uuid_of(c.id@) == Some(q.collection_id)
            &&& ids matches Some(v) && strings_decode(v@, q.ids@)
            &&& opt_embeddings_copied(embeddings, q.embeddings)
            &&& opt_rows_decode(metadatas_json, q.metadatas_json)
            &&& opt_rows_decode(documents, q.documents)
        },
{
    let source = "chroma_update";
    if !client_present {
        return Err(ChromaError::plain(
            ChromaErrorCode::InvalidArgument,
            "Client handle pointer is null",
            source,
        ));
    }
    let collection = match collection {
        Some(c) => c,
        None => {
            return Err(ChromaError::plain(
                ChromaErrorCode::InvalidArgument,
                "Collection handle pointer is null",
                source,
            ));
        },
    };
    let ids_rows = match &ids {
        Some(v) => v,
        None => {
            return Err(ChromaError::plain(
                ChromaErrorCode::InvalidArgument,
                "IDs pointer is null",
                source,
            ));
        },
    };
    if ids_rows.len() == 0 {
        return Err(ChromaError::plain(
            ChromaErrorCode::InvalidArgument,
            "IDs count is zero",
            source,
        ));
    }
    let ids_vec = match require_id_rows(ids_rows, source) {
        Ok(v) => v,
        Err(e) => {
            return Err(e);
        },
    };
    let embeddings_vec = match &embeddings {
        Some(em) => Some(copy_optional_embedding_rows(em)),
        None => None,
    };
    let metadatas_vec = match &metadatas_json {
        Some(m) => match parse_metadata_rows(m, source) {
            Ok(v) => Some(v),
            Err(e) => {
                return Err(e);
            },
        },
        None => None,
    };
    let documents_vec = match &documents {
        Some(d) => Some(decode_optional_rows(d)),
        None => None,
    };
    let collection_id = match parse_collection_id(collection.id.as_str(), source) {
        Ok(v) => v,
        Err(e) => {
            return Err(e);
        },
    };
    Ok(
        UpdateRequest {
            tenant: collection.tenant.clone(),
            database: collection.database.clone(),
            collection_id,
            ids: ids_vec,
            embeddings: embeddings_vec,
            documents: documents_vec,
            metadatas_json: metadatas_vec,
        },
    )
}

/// Validates the raw inputs of an upsert and builds the typed request. Only
/// the ids are required; like an update, an absent embedding row means no
/// embedding is supplied for that id, and metadata and documents are
/// independently optional per array and per row.
pub fn translate_upsert(
    client_present: bool,
    collection: Option<&ChromaCollection>,
    ids: Option<Vec<Option<Vec<u8>>>>,
    embeddings: Option<Vec<Option<Vec<u32>>>>,
    metadatas_json: Option<Vec<Option<Vec<u8>>>>,
    documents: Option<Vec<Option<Vec<u8>>>>,
) -> (r: Result<UpsertRequest, ChromaError>)
    ensures
        r is Ok <==> mutation_ok(client_present, collection, ids, metadatas_json),
        !client_present ==> errs_with(
            r,
            ChromaErrorCode::InvalidArgument,
            "Client handle pointer is null"@,
            "chroma_upsert"@,
        ),
        client_present && collection is None ==> errs_with(
            r,
            ChromaErrorCode::InvalidArgument,
            "Collection handle pointer is null"@,
            "chroma_upsert"@,
        ),
        client_present && collection is Some && ids is None ==> errs_with(
            r,
            ChromaErrorCode::InvalidArgument,
            "IDs pointer is null"@,
            "chroma_upsert"@,
        ),
        client_present && collection is Some && (ids matches Some(v) && v@.len() == 0)
            ==> errs_with(
            r,
            ChromaErrorCode::InvalidArgument,
            "IDs count is zero"@,
            "chroma_upsert"@,
        ),
        client_present && collection is Some && (ids matches Some(v) && v@.len() > 0
            && !rows_present(v@)) ==> errs_detailed(
            r,
            ChromaErrorCode::InvalidArgument,
            "ID pointer is null"@,
            "chroma_upsert"@,
            "Null ID at index "@ + dec_str(first_absent(ids->Some_0@)),
        ),
        client_present && collection is Some && (ids matches Some(v) && v@.len() > 0
            && rows_present(v@)) && !metadata_rows_ok(metadatas_json) ==> (errs_carrying_details(
            r,
            ChromaErrorCode::ValidationError,
            "Invalid metadata JSON"@,
            "chroma_upsert"@,
        ) && (r matches Err(e) && e.details matches Some(d) && metadata_index_detail(
            d@,
            first_bad_metadata(metadatas_json->Some_0@),
        ))),
        client_present && collection is Some && (ids matches Some(v) && v@.len() > 0
            && rows_present(v@)) && metadata_rows_ok(metadatas_json) && uuid_of(
            collection->Some_0.id@,
        ) is None ==> errs_carrying_details(
            r,
            ChromaErrorCode::InvalidUuid,
            "Invalid collection UUID"@,
            "chroma_upsert"@,
        ),
        r matches Ok(q) ==> {
            &&& collection matches Some(c) && q.tenant@ == c.tenant@ && q.database@ == c.database@
                && uuid_of(c.id@) == Some(q.collection_id)
            &&& ids matches Some(v) && strings_decode(v@, q.ids@)
            &&& opt_embeddings_copied(embeddings, q.embeddings)
            &&& opt_rows_decode(metadatas_json, q.metadatas_json)
            &&& opt_rows_decode(documents, q.documents)
        },
{
    let source = "chroma_upsert";
    if !client_present {
        return Err(ChromaError::plain(
            ChromaErrorCode::InvalidArgument,
            "Client handle pointer is null",
            source,
        ));
    }
    let collection = match collection {
        Some(c) => c,
        None => {
            return Err(ChromaError::plain(
                ChromaErrorCode::InvalidArgument,
                "Collection handle pointer is null",
                source,
            ));
        },
    };
    let ids_rows = match &ids {
        Some(v) => v,
        None => {
            return Err(ChromaError::plain(
                ChromaErrorCode::InvalidArgument,
                "IDs pointer is null",
                source,
            ));
        },
    };
    if ids_rows.len() == 0 {
        return Err(ChromaError::plain(
            ChromaErrorCode::InvalidArgument,
            "IDs count is zero",
            source,
        ));
    }
    let ids_vec = match require_id_rows(ids_rows, source) {
        Ok(v) => v,
        Err(e) => {
            return Err(e);
        },
    };
    let embeddings_vec = match &embeddings {
        Some(em) => Some(copy_optional_embedding_rows(em)),
        None => None,
    };
    let metadatas_vec = match &metadatas_json {
        Some(m) => match parse_metadata_rows(m, source) {
            Ok(v) => Some(v),
            Err(e) => {
                return Err(e);
            },
        },
        None => None,
    };
    let documents_vec = match &documents {
        Some(d) => Some(decode_optional_rows(d)),
        None => None,
    };
    let collection_id = match parse_collection_id(collection.id.as_str(), source) {
        Ok(v) => v,
        Err(e) => {
            return Err(e);
        },
    };
    Ok(
        UpsertRequest {
            tenant: collection.tenant.clone(),
            database: collection.database.clone(),
            collection_id,
            ids: ids_vec,
            embeddings: embeddings_vec,
            documents: documents_vec,
            metadatas_json: metadatas_vec,
        },
    )
}

/// Whether an optional id array is acceptable: absent, empty, or with every
/// row present.
pub open spec fn id_rows_ok(ids: Option<Vec<Option<Vec<u8>>>>) -> bool {
    match ids {
        None => true,
        Some(v) => v@.len() == 0 || rows_present(v@),
    }
}

/// Holds when `dst` is the effective id list of a read or delete: the decoded
/// rows when a non-empty id array was supplied, absent otherwise.
pub open spec fn effective_ids(
    ids: Option<Vec<Option<Vec<u8>>>>,
    dst: Option<Vec<String>>,
) -> bool {
    match ids {
        Some(v) => if v@.len() > 0 {
            dst matches Some(w) && strings_decode(v@, w@)
        } else {
            dst is None
        },
        None => dst is None,
    }
}

/// Whether the raw inputs of a delete are acceptable: the handles present,
/// ids or filter criteria (or both) supplied, every supplied id row present,
/// every given filter well-formed JSON, and a well-formed collection
/// identifier.
pub open spec fn delete_ok(
    client_present: bool,
    collection: Option<&ChromaCollection>,
    ids: Option<Vec<Option<Vec<u8>>>>,
    where_json: Option<Vec<u8>>,
    where_doc: Option<Vec<u8>>,
) -> bool {
    &&& client_present
    &&& collection matches Some(c) && uuid_of(c.id@) is Some
    &&& !(ids is None && where_json is None && where_doc is None)
    &&& id_rows_ok(ids)
    &&& where_ok(where_json, where_doc)
}

/// Validates the raw inputs of a delete and builds the typed request. The
/// caller must supply ids, filter criteria, or both; supplying neither is an
/// invalid argument, and a null row inside a supplied id array is one too.
pub fn translate_delete(
    client_present: bool,
    collection: Option<&ChromaCollection>,
    ids: Option<Vec<Option<Vec<u8>>>>,
    where_json: Option<Vec<u8>>,
    where_document_json: Option<Vec<u8>>,
) -> (r: Result<DeleteRequest, ChromaError>)
    ensures
        r is Ok <==> delete_ok(client_present, collection, ids, where_json, where_document_json),
        !client_present ==> errs_with(
            r,
            ChromaErrorCode::InvalidArgument,
            "Client handle pointer is null"@,
            "chroma_delete"@,
        ),
        client_present && collection is None ==> errs_with(
            r,
            ChromaErrorCode::InvalidArgument,
            "Collection handle pointer is null"@,
            "chroma_delete"@,
        ),
        client_present && collection is Some && ids is None && where_json is None
            && where_document_json is None ==> errs_with(
            r,
            ChromaErrorCode::InvalidArgument,
            "Either document IDs or filter criteria must be specified"@,
            "chroma_delete"@,
        ),
        client_present && collection is Some && (ids matches Some(v) && v@.len() > 0
            && !rows_present(v@)) ==> errs_detailed(
            r,
            ChromaErrorCode::InvalidArgument,
            "ID pointer is null"@,
            "chroma_delete"@,
            "Null ID at index "@ + dec_str(first_absent(ids->Some_0@)),
        ),
        client_present && collection is Some && !(ids is None && where_json is None
            && where_document_json is None) && id_rows_ok(ids) && !where_ok(
            where_json,
            where_document_json,
        ) ==> errs_carrying_details(
            r,
            ChromaErrorCode::ValidationError,
            "Failed to create where filters"@,
            "chroma_delete"@,
        ),
        client_present && collection is Some && !(ids is None && where_json is None
            && where_document_json is None) && id_rows_ok(ids) && where_ok(
            where_json,
            where_document_json,
        ) && uuid_of(collection->Some_0.id@) is None ==> errs_carrying_details(
            r,
            ChromaErrorCode::InvalidUuid,
            "Invalid collection UUID"@,
            "chroma_delete"@,
        ),
        r matches Ok(q) ==> {
            &&& collection matches Some(c) && q.tenant@ == c.tenant@ && q.database@ == c.database@
                && uuid_of(c.id@) == Some(q.collection_id)
            &&& effective_ids(ids, q.ids)
            &&& opt_string_is(q.where_json, opt_text(where_json))
            &&& opt_string_is(q.where_document_json, opt_text(where_document_json))
        },
{
    let source = "chroma_delete";
    if !client_present {
        return Err(ChromaError::plain(
            ChromaErrorCode::InvalidArgument,
            "Client handle pointer is null",
            source,
        ));
    }
    let collection = match collection {
        Some(c) => c,
        None => {
            return Err(ChromaError::plain(
                ChromaErrorCode::InvalidArgument,
                "Collection handle pointer is null",
                source,
            ));
        },
    };
    if ids.is_none() && where_json.is_none() && where_document_json.is_none() {
        return Err(ChromaError::plain(
            ChromaErrorCode::InvalidArgument,
            "Either document IDs or filter criteria must be specified",
            source,
        ));
    }
    let ids_vec = match &ids {
        Some(v) => {
            if v.len() > 0 {
                match require_id_rows(v, source) {
                    Ok(w) => Some(w),
                    Err(e) => {
                        return Err(e);
                    },
                }
            } else {
                None
            }
        },
        None => None,
    };
    let (wj, wd) = match parse_where_filters(&where_json, &where_document_json, source) {
        Ok(p) => p,
        Err(e) => {
            return Err(e);
        },
    };
    let collection_id = match parse_collection_id(collection.id.as_str(), source) {
        Ok(v) => v,
        Err(e) => {
            return Err(e);
        },
    };
    Ok(
        DeleteRequest {
            tenant: collection.tenant.clone(),
            database: collection.database.clone(),
            collection_id,
            ids: ids_vec,
            where_json: wj,
            where_document_json: wd,
        },
    )
}

/// Whether the raw inputs of a read are acceptable: the handles and the
/// result out-parameter present, ids or filter criteria (or both) supplied,
/// every supplied id row present, every given filter well-formed JSON, and a
/// well-formed collection identifier.
pub open spec fn get_ok(
    client_present: bool,
    collection: Option<&ChromaCollection>,
    ids: Option<Vec<Option<Vec<u8>>>>,
    where_json: Option<Vec<u8>>,
    where_doc: Option<Vec<u8>>,
    result_out_present: bool,
) -> bool {
    &&& client_present
    &&& collection matches Some(c) && uuid_of(c.id@) is Some
    &&& result_out_present
    &&& !(ids is None && where_json is None && where_doc is None)
    &&& id_rows_ok(ids)
    &&& where_ok(where_json, where_doc)
}

/// Validates the raw inputs of a read and builds the typed request. The
/// caller must supply ids, filter criteria, or both; a null row inside a
/// supplied id array is an invalid argument; a positive limit bounds the
/// returned rows and zero means unbounded.
pub fn translate_get(
    client_present: bool,
    collection: Option<&ChromaCollection>,
    ids: Option<Vec<Option<Vec<u8>>>>,
    where_json: Option<Vec<u8>>,
    where_document_json: Option<Vec<u8>>,
    limit: u32,
    offset: u32,
    want_embeddings: bool,
    want_metadatas: bool,
    want_documents: bool,
    result_out_present: bool,
) -> (r: Result<GetRequest, ChromaError>)
    ensures
        r is Ok <==> get_ok(
            client_present,
            collection,
            ids,
            where_json,
            where_document_json,
            result_out_present,
        ),
        !client_present ==> errs_with(
            r,
            ChromaErrorCode::InvalidArgument,
            "Client handle pointer is null"@,
            "chroma_get"@,
        ),
        client_present && collection is None ==> errs_with(
            r,
            ChromaErrorCode::InvalidArgument,
            "Collection handle pointer is null"@,
            "chroma_get"@,
        ),
        client_present && collection is Some && !result_out_present ==> errs_with(
            r,
            ChromaErrorCode::InvalidArgument,
            "Result pointer is null"@,
            "chroma_get"@,
        ),
        client_present && collection is Some && result_out_present && ids is None
            && where_json is None && where_document_json is None ==> errs_with(
            r,
            ChromaErrorCode::InvalidArgument,
            "Either document IDs or filter criteria must be specified"@,
            "chroma_get"@,
        ),
        client_present && collection is Some && result_out_present && (ids matches Some(v)
            && v@.len() > 0 && !rows_present(v@)) ==> errs_detailed(
            r,
            ChromaErrorCode::InvalidArgument,
            "ID pointer is null"@,
            "chroma_get"@,
            "Null ID at index "@ + dec_str(first_absent(ids->Some_0@)),
        ),
        client_present && collection is Some && result_out_present && !(ids is None
            && where_json is None && where_document_json is None) && id_rows_ok(ids) && !where_ok(
            where_json,
            where_document_json,
        ) ==> errs_carrying_details(
            r,
            ChromaErrorCode::ValidationError,
            "Failed to create where filters"@,
            "chroma_get"@,
        ),
        client_present && collection is Some && result_out_present && !(ids is None
            && where_json is None && where_document_json is None) && id_rows_ok(ids) && where_ok(
            where_json,
            where_document_json,
        ) && uuid_of(collection->Some_0.id@) is None ==> errs_carrying_details(
            r,
            ChromaErrorCode::InvalidUuid,
            "Invalid collection UUID"@,
            "chroma_get"@,
        ),
        r matches Ok(q) ==> {
            &&& collection matches Some(c) && q.tenant@ == c.tenant@ && q.database@ == c.database@
                && uuid_of(c.id@) == Some(q.collection_id)
            &&& effective_ids(ids, q.ids)
            &&& opt_string_is(q.where_json, opt_text(where_json))
            &&& opt_string_is(q.where_document_json, opt_text(where_document_json))
            &&& q.limit == (if limit > 0 {
                Some(limit)
            } else {
                None::<u32>
            })
            &&& q.offset == offset
            &&& selection_is(
                q.selection@,
                selection_names(want_embeddings, want_metadatas, want_documents, false),
            )
        },
{
    let source = "chroma_get";
    if !client_present {
        return Err(ChromaError::plain(
            ChromaErrorCode::InvalidArgument,
            "Client handle pointer is null",
            source,
        ));
    }
    let collection = match collection {
        Some(c) => c,
        None => {
            return Err(ChromaError::plain(
                ChromaErrorCode::InvalidArgument,
                "Collection handle pointer is null",
                source,
            ));
        },
    };
    if !result_out_present {
        return Err(ChromaError::plain(
            ChromaErrorCode::InvalidArgument,
            "Result pointer is null",
            source,
        ));
    }
    if ids.is_none() && where_json.is_none() && where_document_json.is_none() {
        return Err(ChromaError::plain(
            ChromaErrorCode::InvalidArgument,
            "Either document IDs or filter criteria must be specified",
            source,
        ));
    }
    let ids_vec = match &ids {
        Some(v) => {
            if v.len() > 0 {
                match require_id_rows(v, source) {
                    Ok(w) => Some(w),
                    Err(e) => {
                        return Err(e);
                    },
                }
            } else {
                None
            }
        },
        None => None,
    };
    let (wj, wd) = match parse_where_filters(&where_json, &where_document_json, source) {
        Ok(p) => p,
        Err(e) => {
            return Err(e);
        },
    };
    let collection_id = match parse_collection_id(collection.id.as_str(), source) {
        Ok(v) => v,
        Err(e) => {
            return Err(e);
        },
    };
    let selection = build_selection(want_embeddings, want_metadatas, want_documents, false);
    Ok(
        GetRequest {
            tenant: collection.tenant.clone(),
            database: collection.database.clone(),
            collection_id,
            ids: ids_vec,
            where_json: wj,
            where_document_json: wd,
            limit: if limit > 0 {
                Some(limit)
            } else {
                None
            },
            offset,
            selection,
        },
    )
}

/// Detail text echoing a dimension mismatch back to the caller: the declared
/// dimension and the decoded length.
pub open spec fn dimension_detail(expected: int, got: int) -> Seq<char> {
    "Expected dimension "@ + dec_str(expected) + ", got "@ + dec_str(got)
}

/// Whether the raw inputs of a similarity query are acceptable: the handles,
/// embedding and result out-parameter present, a non-empty embedding
/// matching the declared dimension, every given filter well-formed JSON, and
/// a well-formed collection identifier.
pub open spec fn query_ok(
    client_present: bool,
    collection: Option<&ChromaCollection>,
    embedding: Option<Vec<u32>>,
    embedding_dim: usize,
    where_json: Option<Vec<u8>>,
    where_doc: Option<Vec<u8>>,
    result_out_present: bool,
) -> bool {
    &&& client_present
    &&& collection matches Some(c) && uuid_of(c.id@) is Some
    &&& result_out_present
    &&& embedding matches Some(v) && v@.len() > 0 && v@.len() == embedding_dim
    &&& where_ok(where_json, where_doc)
}

/// Validates the raw inputs of a similarity query and builds the typed
/// request. The single query embedding is required and its decoded length
/// must match the declared dimension exactly — a mismatch is rejected with
/// both lengths echoed in the detail string — before the filters are decoded
/// and the collection identifier is parsed.
pub fn translate_query(
    client_present: bool,
    collection: Option<&ChromaCollection>,
    embedding: Option<Vec<u32>>,
    embedding_dim: usize,
    n_results: u32,
    where_json: Option<Vec<u8>>,
    where_document_json: Option<Vec<u8>>,
    want_embeddings: bool,
    want_metadatas: bool,
    want_documents: bool,
    want_distances: bool,
    result_out_present: bool,
) -> (r: Result<QueryRequest, ChromaError>)
    ensures
        r is Ok <==> query_ok(
            client_present,
            collection,
            embedding,
            embedding_dim,
            where_json,
            where_document_json,
            result_out_present,
        ),
        !client_present ==> errs_with(
            r,
            ChromaErrorCode::InvalidArgument,
            "Client handle pointer is null"@,
            "chroma_query"@,
        ),
        client_present && collection is None ==> errs_with(
            r,
            ChromaErrorCode::InvalidArgument,
            "Collection handle pointer is null"@,
            "chroma_query"@,
        ),
        client_present && collection is Some && embedding is None ==> errs_with(
            r,
            ChromaErrorCode::InvalidArgument,
            "Query embeddings pointer is null"@,
            "chroma_query"@,
        ),
        client_present && collection is Some && embedding is Some && !result_out_present
            ==> errs_with(
            r,
            ChromaErrorCode::InvalidArgument,
            "Result pointer is null"@,
            "chroma_query"@,
        ),
        client_present && collection is Some && result_out_present && (embedding matches Some(v)
            && (v@.len() == 0 || v@.len() != embedding_dim)) ==> errs_detailed(
            r,
            ChromaErrorCode::InvalidArgument,
            "Invalid query embedding"@,
            "chroma_query"@,
            dimension_detail(embedding_dim as int, embedding->Some_0@.len() as int),
        ),
        client_present && collection is Some && result_out_present && (embedding matches Some(v)
            && v@.len() > 0 && v@.len() == embedding_dim) && !where_ok(
            where_json,
            where_document_json,
        ) ==> errs_carrying_details(
            r,
            ChromaErrorCode::ValidationError,
            "Failed to create where filters"@,
            "chroma_query"@,
        ),
        client_present && collection is Some && result_out_present && (embedding matches Some(v)
            && v@.len() > 0 && v@.len() == embedding_dim) && where_ok(
            where_json,
            where_document_json,
        ) && uuid_of(collection->Some_0.id@) is None ==> errs_carrying_details(
            r,
            ChromaErrorCode::InvalidUuid,
            "Invalid collection UUID"@,
            "chroma_query"@,
        ),
        r matches Ok(q) ==> {
            &&& collection matches Some(c) && q.tenant@ == c.tenant@ && q.database@ == c.database@
                && uuid_of(c.id@) == Some(q.collection_id)
            &&& embedding matches Some(v) && q.embedding@ == v@
            &&& q.n_results == n_results
            &&& opt_string_is(q.where_json, opt_text(where_json))
            &&& opt_string_is(q.where_document_json, opt_text(where_document_json))
            &&& selection_is(
                q.selection@,
                selection_names(want_embeddings, want_metadatas, want_documents, want_distances),
            )
        },
{
    let source = "chroma_query";
    if !client_present {
        return Err(ChromaError::plain(
            ChromaErrorCode::InvalidArgument,
            "Client handle pointer is null",
            source,
        ));
    }
    let collection = match collection {
        Some(c) => c,
        None => {
            return Err(ChromaError::plain(
                ChromaErrorCode::InvalidArgument,
                "Collection handle pointer is null",
                source,
            ));
        },
    };
    let embedding = match embedding {
        Some(v) => v,
        None => {
            return Err(ChromaError::plain(
                ChromaErrorCode::InvalidArgument,
                "Query embeddings pointer is null",
                source,
            ));
        },
    };
    if !result_out_present {
        return Err(ChromaError::plain(
            ChromaErrorCode::InvalidArgument,
            "Result pointer is null",
            source,
        ));
    }
    if embedding.len() == 0 || embedding.len() != embedding_dim {
        let details = String::from_str("Expected dimension ").concat(
            usize_to_string(embedding_dim).as_str(),
        ).concat(", got ").concat(usize_to_string(embedding.len()).as_str());
        return Err(ChromaError::with_details(
            ChromaErrorCode::InvalidArgument,
            "Invalid query embedding",
            source,
            details,
        ));
    }
    let (wj, wd) = match parse_where_filters(&where_json, &where_document_json, source) {
        Ok(p) => p,
        Err(e) => {
            return Err(e);
        },
    };
    let collection_id = match parse_collection_id(collection.id.as_str(), source) {
        Ok(v) => v,
        Err(e) => {
            return Err(e);
        },
    };
    let selection = build_selection(
        want_embeddings,
        want_metadatas,
        want_documents,
        want_distances,
    );
    Ok(
        QueryRequest {
            tenant: collection.tenant.clone(),
            database: collection.database.clone(),
            collection_id,
            embedding,
            n_results,
            where_json: wj,
            where_document_json: wd,
            selection,
        },
    )
}

/// Validates the raw inputs of a count and builds the typed request.
pub fn translate_count(
    client_present: bool,
    collection: Option<&ChromaCollection>,
    result_out_present: bool,
) -> (r: Result<CountRequest, ChromaError>)
    ensures
        r is Ok <==> client_present && (collection matches Some(c) && uuid_of(c.id@) is Some)
            && result_out_present,
        !client_present ==> errs_with(
            r,
            ChromaErrorCode::InvalidArgument,
            "Client handle pointer is null"@,
            "chroma_count"@,
        ),
        client_present && collection is None ==> errs_with(
            r,
            ChromaErrorCode::InvalidArgument,
            "Collection handle pointer is null"@,
            "chroma_count"@,
        ),
        client_present && collection is Some && !result_out_present ==> errs_with(
            r,
            ChromaErrorCode::InvalidArgument,
            "Result pointer is null"@,
            "chroma_count"@,
        ),
        client_present && collection is Some && result_out_present && uuid_of(
            collection->Some_0.id@,
        ) is None ==> errs_carrying_details(
            r,
            ChromaErrorCode::InvalidUuid,
            "Invalid collection UUID"@,
            "chroma_count"@,
        ),
        r matches Ok(q) ==> {
            &&& collection matches Some(c) && q.tenant@ == c.tenant@ && q.database@ == c.database@
                && uuid_of(c.id@) == Some(q.collection_id)
        },
{
    let source = "chroma_count";
    if !client_present {
        return Err(ChromaError::plain(
            ChromaErrorCode::InvalidArgument,
            "Client handle pointer is null",
            source,
        ));
    }
    let collection = match collection {
        Some(c) => c,
        None => {
            return Err(ChromaError::plain(
                ChromaErrorCode::InvalidArgument,
                "Collection handle pointer is null",
                source,
            ));
        },
    };
    if !result_out_present {
        return Err(ChromaError::plain(
            ChromaErrorCode::InvalidArgument,
            "Result pointer is null",
            source,
        ));
    }
    let collection_id = match parse_collection_id(collection.id.as_str(), source) {
        Ok(v) => v,
        Err(e) => {
            return Err(e);
        },
    };
    Ok(
        CountRequest {
            tenant: collection.tenant.clone(),
            database: collection.database.clone(),
            collection_id,
        },
    )
}

} // verus!
