//! Client construction and database management.
//!
//! Construction of a client handle parses an optional storage-configuration
//! block and an optional persistence path into the engine's configuration
//! object; unknown selector values are rejected with the offending value
//! echoed in the detail string. The database operations translate raw name
//! and tenant inputs into typed requests, falling back to the default tenant
//! when none is given. The pointer shim drives the engine with the translated
//! values and owns the handle's execution context.

use vstd::prelude::*;
use vstd::string::StringExecFns;

use crate::decimal::{dec_str_signed, i64_to_string};
use crate::error::{errs_detailed, errs_with, ChromaError, ChromaErrorCode};
use crate::text::{buffer_text, c_bytes_to_string, text_or_default, opt_text, opt_string_is};

verus! {

/// Hash algorithm selector of the storage configuration.
#[derive(Clone, Copy, PartialEq, Eq, Structural, Debug)]
pub enum MigrationHash {
    Sha256,
    Md5,
}

/// Migration mode selector of the storage configuration.
#[derive(Clone, Copy, PartialEq, Eq, Structural, Debug)]
pub enum MigrationMode {
    Apply,
    Validate,
}

/// Raw storage-configuration block as it crosses the boundary: a string
/// pointer and two numeric selectors.
#[derive(Debug)]
pub struct RawSqliteConfig {
    /// Connection string; absent stands for a null pointer.
    pub url: Option<Vec<u8>>,
    /// Hash algorithm selector: 0 or 1.
    pub hash_type: i32,
    /// Migration mode selector: 0 or 1.
    pub migration_mode: i32,
}

/// Parsed storage configuration handed to the engine. The connection string
/// is left unset: the engine derives it from the persistence path.
#[derive(Debug)]
pub struct SqliteConfig {
    /// Connection string override; intentionally unset.
    pub url: Option<String>,
    /// Hash algorithm for migration bookkeeping.
    pub hash_type: MigrationHash,
    /// Whether migrations are applied or only validated.
    pub migration_mode: MigrationMode,
}

/// Index implementation the engine uses for new collections when none is
/// configured explicitly.
#[derive(Clone, Copy, PartialEq, Eq, Structural, Debug)]
pub enum KnnIndex {
    Hnsw,
    Spann,
}

/// Engine configuration assembled at client construction.
#[derive(Debug)]
pub struct ClientConfig {
    /// Whether the engine allows a full reset.
    pub allow_reset: bool,
    /// Storage configuration.
    pub sqlite: SqliteConfig,
    /// Capacity of the index cache.
    pub hnsw_cache_size: usize,
    /// Directory the engine persists under; absent means ephemeral.
    pub persist_path: Option<String>,
    /// Index implementation for new collections.
    pub default_knn_index: KnnIndex,
}

/// Whether a numeric selector of the storage configuration names a known
/// variant: only 0 and 1 are assigned.
pub open spec fn selector_ok(v: i32) -> bool {
    v == 0 || v == 1
}

/// The hash algorithm a valid selector names.
pub open spec fn hash_of_selector(v: i32) -> MigrationHash
    recommends
        selector_ok(v),
{
    if v == 0 {
        MigrationHash::Sha256
    } else {
        MigrationHash::Md5
    }
}

/// The migration mode a valid selector names.
pub open spec fn mode_of_selector(v: i32) -> MigrationMode
    recommends
        selector_ok(v),
{
    if v == 0 {
        MigrationMode::Apply
    } else {
        MigrationMode::Validate
    }
}

/// Detail text echoing an unknown hash selector back to the caller.
pub open spec fn hash_selector_detail(v: int) -> Seq<char> {
    "Got "@ + dec_str_signed(v) + ", expected 0 (SHA256) or 1 (MD5)"@
}

/// Detail text echoing an unknown migration-mode selector back to the caller.
pub open spec fn mode_selector_detail(v: int) -> Seq<char> {
    "Got "@ + dec_str_signed(v) + ", expected 0 (Apply) or 1 (Validate)"@
}

/// Whether a raw storage-configuration block is acceptable: when present, its
/// connection string must not be a null pointer and both selectors must name
/// known variants.
pub open spec fn sqlite_config_ok(c: Option<RawSqliteConfig>) -> bool {
    match c {
        None => true,
        Some(c) => c.url is Some && selector_ok(c.hash_type) && selector_ok(c.migration_mode),
    }
}

/// Validates the raw inputs of client construction and assembles the engine
/// configuration. A missing storage block falls back to defaults; unknown
/// selector values fail as invalid arguments with the offending value echoed
/// in the detail string, and no configuration is produced.
pub fn translate_create_client(
    allow_reset: bool,
    sqlite_config: Option<RawSqliteConfig>,
    hnsw_cache_size: usize,
    persist_path: Option<Vec<u8>>,
    client_out_present: bool,
) -> (r: Result<ClientConfig, ChromaError>)
    ensures
        r is Ok <==> client_out_present && sqlite_config_ok(sqlite_config),
        !client_out_present ==> errs_with(
            r,
            ChromaErrorCode::InvalidArgument,
            "Client handle pointer is null"@,
            "chroma_create_client"@,
        ),
        client_out_present && (sqlite_config matches Some(c) && c.url is None) ==> errs_detailed(
            r,
            ChromaErrorCode::InvalidArgument,
            "Invalid SQLite URL"@,
            "chroma_create_client"@,
            "Null string pointer"@,
        ),
        client_out_present && (sqlite_config matches Some(c) && c.url is Some && !selector_ok(
            c.hash_type,
        )) ==> errs_detailed(
            r,
            ChromaErrorCode::InvalidArgument,
            "Invalid hash type"@,
            "chroma_create_client"@,
            hash_selector_detail(sqlite_config->Some_0.hash_type as int),
        ),
        client_out_present && (sqlite_config matches Some(c) && c.url is Some && selector_ok(
            c.hash_type,
        ) && !selector_ok(c.migration_mode)) ==> errs_detailed(
            r,
            ChromaErrorCode::InvalidArgument,
            "Invalid migration mode"@,
            "chroma_create_client"@,
            mode_selector_detail(sqlite_config->Some_0.migration_mode as int),
        ),
        r matches Ok(cfg) ==> {
            &&& cfg.allow_reset == allow_reset
            &&& cfg.hnsw_cache_size == hnsw_cache_size
            &&& opt_string_is(cfg.persist_path, opt_text(persist_path))
            &&& cfg.default_knn_index is Hnsw
            &&& cfg.sqlite.url is None
            &&& cfg.sqlite.hash_type == (match sqlite_config {
                None => MigrationHash::Sha256,
                Some(c) => hash_of_selector(c.hash_type),
            })
            &&& cfg.sqlite.migration_mode == (match sqlite_config {
                None => MigrationMode::Apply,
                Some(c) => mode_of_selector(c.migration_mode),
            })
        },
{
    let source = "chroma_create_client";
    if !client_out_present {
        return Err(ChromaError::plain(
            ChromaErrorCode::InvalidArgument,
            "Client handle pointer is null",
            source,
        ));
    }
    let sqlite = match &sqlite_config {
        Some(c) => {
            if c.url.is_none() {
                return Err(ChromaError::new(
                    ChromaErrorCode::InvalidArgument,
                    "Invalid SQLite URL",
                    source,
                    Some("Null string pointer"),
                ));
            }
            let hash_type = if c.hash_type == 0 {
                MigrationHash::Sha256
            } else if c.hash_type == 1 {
                MigrationHash::Md5
            } else {
                let details = String::from_str("Got ").concat(
                    i64_to_string(c.hash_type as i64).as_str(),
                ).concat(", expected 0 (SHA256) or 1 (MD5)");
                return Err(ChromaError::with_details(
                    ChromaErrorCode::InvalidArgument,
                    "Invalid hash type",
                    source,
                    details,
                ));
            };
            let migration_mode = if c.migration_mode == 0 {
                MigrationMode::Apply
            } else if c.migration_mode == 1 {
                MigrationMode::Validate
            } else {
                let details = String::from_str("Got ").concat(
                    i64_to_string(c.migration_mode as i64).as_str(),
                ).concat(", expected 0 (Apply) or 1 (Validate)");
                return Err(ChromaError::with_details(
                    ChromaErrorCode::InvalidArgument,
                    "Invalid migration mode",
                    source,
                    details,
                ));
            };
            SqliteConfig { url: None, hash_type, migration_mode }
        },
        None => SqliteConfig {
            url: None,
            hash_type: MigrationHash::Sha256,
            migration_mode: MigrationMode::Apply,
        },
    };
    let persist = match &persist_path {
        Some(b) => Some(c_bytes_to_string(b.as_slice())),
        None => None,
    };
    Ok(
        ClientConfig {
            allow_reset,
            sqlite,
            hnsw_cache_size,
            persist_path: persist,
            default_knn_index: KnnIndex::Hnsw,
        },
    )
}

/// Validates the raw inputs of a heartbeat: both the client handle and the
/// out-parameter for the timestamp must be present. The clock itself is the
/// pointer shim's; only the argument policy is decided here.
pub fn translate_heartbeat(client_present: bool, result_out_present: bool) -> (r: Result<
    (),
    ChromaError,
>)
    ensures
        r is Ok <==> client_present && result_out_present,
        !client_present ==> errs_with(
            r,
            ChromaErrorCode::InvalidArgument,
            "Client handle pointer is null"@,
            "chroma_heartbeat"@,
        ),
        client_present && !result_out_present ==> errs_with(
            r,
            ChromaErrorCode::InvalidArgument,
            "Result pointer is null"@,
            "chroma_heartbeat"@,
        ),
{
    let source = "chroma_heartbeat";
    if !client_present {
        return Err(ChromaError::plain(
            ChromaErrorCode::InvalidArgument,
            "Client handle pointer is null",
            source,
        ));
    }
    if !result_out_present {
        return Err(ChromaError::plain(
            ChromaErrorCode::InvalidArgument,
            "Result pointer is null",
            source,
        ));
    }
    Ok(())
}

/// Typed request to create a database under a tenant.
#[derive(Debug)]
pub struct CreateDatabaseRequest {
    /// Tenant the database belongs to.
    pub tenant: String,
    /// Name of the database to create.
    pub name: String,
}

/// Typed request to look a database up under a tenant.
#[derive(Debug)]
pub struct GetDatabaseRequest {
    /// Tenant the database belongs to.
    pub tenant: String,
    /// Name of the database to resolve.
    pub name: String,
}

/// Typed request to delete a database under a tenant.
#[derive(Debug)]
pub struct DeleteDatabaseRequest {
    /// Tenant the database belongs to.
    pub tenant: String,
    /// Name of the database to delete.
    pub name: String,
}

/// Validates the raw inputs of database creation and builds the typed
/// request. The database name is required; the tenant falls back to the
/// default when absent.
pub fn translate_create_database(
    client_present: bool,
    name: Option<Vec<u8>>,
    tenant: Option<Vec<u8>>,
) -> (r: Result<CreateDatabaseRequest, ChromaError>)
    ensures
        r is Ok <==> client_present && name is Some,
        !client_present ==> errs_with(
            r,
            ChromaErrorCode::InvalidArgument,
            "Client handle pointer is null"@,
            "chroma_create_database"@,
        ),
        client_present && name is None ==> errs_with(
            r,
            ChromaErrorCode::InvalidArgument,
            "Database name pointer is null"@,
            "chroma_create_database"@,
        ),
        r matches Ok(q) ==> (name matches Some(b) && q.name@ == buffer_text(b@)) && q.tenant@
            == text_or_default(tenant, "default_tenant"@),
{
    let source = "chroma_create_database";
    if !client_present {
        return Err(ChromaError::plain(
            ChromaErrorCode::InvalidArgument,
            "Client handle pointer is null",
            source,
        ));
    }
    let name = match &name {
        Some(b) => c_bytes_to_string(b.as_slice()),
        None => {
            return Err(ChromaError::plain(
                ChromaErrorCode::InvalidArgument,
                "Database name pointer is null",
                source,
            ));
        },
    };
    let tenant = match &tenant {
        Some(b) => c_bytes_to_string(b.as_slice()),
        None => String::from_str("default_tenant"),
    };
    Ok(CreateDatabaseRequest { tenant, name })
}

/// Validates the raw inputs of a database lookup and builds the typed
/// request. The name and the out-parameter for the resolved identifier are
/// required; the tenant falls back to the default when absent.
pub fn translate_get_database(
    client_present: bool,
    name: Option<Vec<u8>>,
    tenant: Option<Vec<u8>>,
    id_out_present: bool,
) -> (r: Result<GetDatabaseRequest, ChromaError>)
    ensures
        r is Ok <==> client_present && name is Some && id_out_present,
        !client_present ==> errs_with(
            r,
            ChromaErrorCode::InvalidArgument,
            "Client handle pointer is null"@,
            "chroma_get_database"@,
        ),
        client_present && name is None ==> errs_with(
            r,
            ChromaErrorCode::InvalidArgument,
            "Database name pointer is null"@,
            "chroma_get_database"@,
        ),
        client_present && name is Some && !id_out_present ==> errs_with(
            r,
            ChromaErrorCode::InvalidArgument,
            "ID result pointer is null"@,
            "chroma_get_database"@,
        ),
        r matches Ok(q) ==> (name matches Some(b) && q.name@ == buffer_text(b@)) && q.tenant@
            == text_or_default(tenant, "default_tenant"@),
{
    let source = "chroma_get_database";
    if !client_present {
        return Err(ChromaError::plain(
            ChromaErrorCode::InvalidArgument,
            "Client handle pointer is null",
            source,
        ));
    }
    let name = match &name {
        Some(b) => c_bytes_to_string(b.as_slice()),
        None => {
            return Err(ChromaError::plain(
                ChromaErrorCode::InvalidArgument,
                "Database name pointer is null",
                source,
            ));
        },
    };
    if !id_out_present {
        return Err(ChromaError::plain(
            ChromaErrorCode::InvalidArgument,
            "ID result pointer is null",
            source,
        ));
    }
    let tenant = match &tenant {
        Some(b) => c_bytes_to_string(b.as_slice()),
        None => String::from_str("default_tenant"),
    };
    Ok(GetDatabaseRequest { tenant, name })
}

/// Validates the raw inputs of database deletion and builds the typed
/// request. The database name is required; the tenant falls back to the
/// default when absent.
pub fn translate_delete_database(
    client_present: bool,
    name: Option<Vec<u8>>,
    tenant: Option<Vec<u8>>,
) -> (r: Result<DeleteDatabaseRequest, ChromaError>)
    ensures
        r is Ok <==> client_present && name is Some,
        !client_present ==> errs_with(
            r,
            ChromaErrorCode::InvalidArgument,
            "Client handle pointer is null"@,
            "chroma_delete_database"@,
        ),
        client_present && name is None ==> errs_with(
            r,
            ChromaErrorCode::InvalidArgument,
            "Database name pointer is null"@,
            "chroma_delete_database"@,
        ),
        r matches Ok(q) ==> (name matches Some(b) && q.name@ == buffer_text(b@)) && q.tenant@
            == text_or_default(tenant, "default_tenant"@),
{
    let source = "chroma_delete_database";
    if !client_present {
        return Err(ChromaError::plain(
            ChromaErrorCode::InvalidArgument,
            "Client handle pointer is null",
            source,
        ));
    }
    let name = match &name {
        Some(b) => c_bytes_to_string(b.as_slice()),
        None => {
            return Err(ChromaError::plain(
                ChromaErrorCode::InvalidArgument,
                "Database name pointer is null",
                source,
            ));
        },
    };
    let tenant = match &tenant {
        Some(b) => c_bytes_to_string(b.as_slice()),
        None => String::from_str("default_tenant"),
    };
    Ok(DeleteDatabaseRequest { tenant, name })
}

} // verus!
