use chroma_ffi::client::{
    translate_create_client, translate_create_database, translate_delete_database,
    translate_get_database, translate_heartbeat, KnnIndex, MigrationHash, MigrationMode,
    RawSqliteConfig,
};
use chroma_ffi::error::ChromaErrorCode;

fn buf(s: &str) -> Vec<u8> {
    let mut v = s.as_bytes().to_vec();
    v.push(0);
    v
}

#[test]
fn default_config_when_block_absent() {
    let cfg = translate_create_client(true, None, 1000, None, true).expect("must succeed");
    assert!(cfg.allow_reset);
    assert_eq!(cfg.hnsw_cache_size, 1000);
    assert!(cfg.persist_path.is_none());
    assert_eq!(cfg.sqlite.hash_type, MigrationHash::Sha256);
    assert_eq!(cfg.sqlite.migration_mode, MigrationMode::Apply);
    assert_eq!(cfg.default_knn_index, KnnIndex::Hnsw);
    assert!(cfg.sqlite.url.is_none());
}

#[test]
fn explicit_selectors_are_mapped() {
    let raw = RawSqliteConfig { url: Some(buf("sqlite://x")), hash_type: 1, migration_mode: 1 };
    let cfg = translate_create_client(false, Some(raw), 64, Some(buf("/tmp/data")), true)
        .expect("must succeed");
    assert!(!cfg.allow_reset);
    assert_eq!(cfg.sqlite.hash_type, MigrationHash::Md5);
    assert_eq!(cfg.sqlite.migration_mode, MigrationMode::Validate);
    assert_eq!(cfg.persist_path.as_deref(), Some("/tmp/data"));
}

#[test]
fn bad_hash_selector_is_invalid_argument() {
    let raw = RawSqliteConfig { url: Some(buf("u")), hash_type: 2, migration_mode: 0 };
    let e = translate_create_client(true, Some(raw), 10, None, true).unwrap_err();
    assert_eq!(e.code, ChromaErrorCode::InvalidArgument);
    assert_eq!(e.message.as_deref(), Some("Invalid hash type"));
    assert_eq!(e.source.as_deref(), Some("chroma_create_client"));
    assert_eq!(e.details.as_deref(), Some("Got 2, expected 0 (SHA256) or 1 (MD5)"));
}

#[test]
fn negative_hash_selector_is_echoed() {
    let raw = RawSqliteConfig { url: Some(buf("u")), hash_type: -1, migration_mode: 0 };
    let e = translate_create_client(true, Some(raw), 10, None, true).unwrap_err();
    assert_eq!(e.code, ChromaErrorCode::InvalidArgument);
    assert_eq!(e.details.as_deref(), Some("Got -1, expected 0 (SHA256) or 1 (MD5)"));
}

#[test]
fn bad_migration_selector_is_invalid_argument() {
    let raw = RawSqliteConfig { url: Some(buf("u")), hash_type: 0, migration_mode: 7 };
    let e = translate_create_client(true, Some(raw), 10, None, true).unwrap_err();
    assert_eq!(e.code, ChromaErrorCode::InvalidArgument);
    assert_eq!(e.message.as_deref(), Some("Invalid migration mode"));
    assert_eq!(e.details.as_deref(), Some("Got 7, expected 0 (Apply) or 1 (Validate)"));
}

#[test]
fn null_url_in_config_is_invalid_argument() {
    let raw = RawSqliteConfig { url: None, hash_type: 0, migration_mode: 0 };
    let e = translate_create_client(true, Some(raw), 10, None, true).unwrap_err();
    assert_eq!(e.code, ChromaErrorCode::InvalidArgument);
    assert_eq!(e.message.as_deref(), Some("Invalid SQLite URL"));
    assert_eq!(e.details.as_deref(), Some("Null string pointer"));
}

#[test]
fn missing_client_out_pointer_is_invalid_argument() {
    let e = translate_create_client(true, None, 10, None, false).unwrap_err();
    assert_eq!(e.code, ChromaErrorCode::InvalidArgument);
    assert_eq!(e.message.as_deref(), Some("Client handle pointer is null"));
}

#[test]
fn create_database_uses_default_tenant() {
    let q = translate_create_database(true, Some(buf("db1")), None).expect("must succeed");
    assert_eq!(q.name, "db1");
    assert_eq!(q.tenant, "default_tenant");
}

#[test]
fn create_database_keeps_explicit_tenant() {
    let q = translate_create_database(true, Some(buf("db1")), Some(buf("team"))).unwrap();
    assert_eq!(q.tenant, "team");
}

#[test]
fn create_database_requires_name() {
    let e = translate_create_database(true, None, None).unwrap_err();
    assert_eq!(e.code, ChromaErrorCode::InvalidArgument);
    assert_eq!(e.message.as_deref(), Some("Database name pointer is null"));
    assert_eq!(e.source.as_deref(), Some("chroma_create_database"));
}

#[test]
fn create_database_requires_client() {
    let e = translate_create_database(false, Some(buf("db1")), None).unwrap_err();
    assert_eq!(e.code, ChromaErrorCode::InvalidArgument);
    assert_eq!(e.message.as_deref(), Some("Client handle pointer is null"));
}

#[test]
fn get_database_requires_id_out_pointer() {
    let e = translate_get_database(true, Some(buf("db1")), None, false).unwrap_err();
    assert_eq!(e.code, ChromaErrorCode::InvalidArgument);
    assert_eq!(e.message.as_deref(), Some("ID result pointer is null"));
    let q = translate_get_database(true, Some(buf("db1")), None, true).unwrap();
    assert_eq!(q.name, "db1");
    assert_eq!(q.tenant, "default_tenant");
}

#[test]
fn delete_database_translates() {
    let q = translate_delete_database(true, Some(buf("old")), Some(buf("t"))).unwrap();
    assert_eq!(q.name, "old");
    assert_eq!(q.tenant, "t");
    let e = translate_delete_database(true, None, None).unwrap_err();
    assert_eq!(e.message.as_deref(), Some("Database name pointer is null"));
    assert_eq!(e.source.as_deref(), Some("chroma_delete_database"));
}

#[test]
fn heartbeat_requires_both_pointers() {
    assert!(translate_heartbeat(true, true).is_ok());
    let e = translate_heartbeat(false, true).unwrap_err();
    assert_eq!(e.message.as_deref(), Some("Client handle pointer is null"));
    assert_eq!(e.source.as_deref(), Some("chroma_heartbeat"));
    let e = translate_heartbeat(true, false).unwrap_err();
    assert_eq!(e.code, ChromaErrorCode::InvalidArgument);
    assert_eq!(e.message.as_deref(), Some("Result pointer is null"));
}
