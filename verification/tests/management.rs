use chroma_ffi::error::ChromaErrorCode;
use chroma_ffi::management::{translate_create_collection, translate_get_collection};

fn buf(s: &str) -> Vec<u8> {
    let mut v = s.as_bytes().to_vec();
    v.push(0);
    v
}

#[test]
fn create_collection_with_defaults() {
    let q = translate_create_collection(
        true,
        Some(buf("c1")),
        None,
        None,
        false,
        None,
        None,
        true,
    )
    .expect("must succeed");
    assert_eq!(q.name, "c1");
    assert_eq!(q.tenant, "default_tenant");
    assert_eq!(q.database, "default_database");
    assert!(q.config_json.is_none());
    assert!(q.metadata_json.is_none());
    assert!(!q.get_or_create);
}

#[test]
fn create_collection_keeps_payloads() {
    let q = translate_create_collection(
        true,
        Some(buf("c1")),
        Some(buf("{\"hnsw\":{\"ef_construction\":100}}")),
        Some(buf("{\"owner\":\"me\"}")),
        true,
        Some(buf("t")),
        Some(buf("d")),
        true,
    )
    .expect("must succeed");
    assert_eq!(q.config_json.as_deref(), Some("{\"hnsw\":{\"ef_construction\":100}}"));
    assert_eq!(q.metadata_json.as_deref(), Some("{\"owner\":\"me\"}"));
    assert!(q.get_or_create);
    assert_eq!(q.tenant, "t");
    assert_eq!(q.database, "d");
}

#[test]
fn create_collection_rejects_malformed_config() {
    let e = translate_create_collection(
        true,
        Some(buf("c1")),
        Some(buf("{not json")),
        None,
        false,
        None,
        None,
        true,
    )
    .unwrap_err();
    assert_eq!(e.code, ChromaErrorCode::ValidationError);
    assert_eq!(e.message.as_deref(), Some("Failed to parse configuration JSON"));
    assert_eq!(e.source.as_deref(), Some("chroma_create_collection"));
    assert!(e.details.is_some());
}

#[test]
fn create_collection_rejects_non_object_metadata() {
    let e = translate_create_collection(
        true,
        Some(buf("c1")),
        None,
        Some(buf("[1,2,3]")),
        false,
        None,
        None,
        true,
    )
    .unwrap_err();
    assert_eq!(e.code, ChromaErrorCode::ValidationError);
    assert_eq!(e.message.as_deref(), Some("Failed to parse metadata JSON"));
}

#[test]
fn create_collection_requires_name_and_out() {
    let e = translate_create_collection(true, None, None, None, false, None, None, true)
        .unwrap_err();
    assert_eq!(e.message.as_deref(), Some("Collection name pointer is null"));
    let e = translate_create_collection(true, Some(buf("c")), None, None, false, None, None, false)
        .unwrap_err();
    assert_eq!(e.message.as_deref(), Some("Collection handle output pointer is null"));
    let e = translate_create_collection(false, Some(buf("c")), None, None, false, None, None, true)
        .unwrap_err();
    assert_eq!(e.message.as_deref(), Some("Client handle pointer is null"));
}

#[test]
fn get_collection_translates() {
    let q = translate_get_collection(true, Some(buf("c1")), None, None, true).unwrap();
    assert_eq!(q.name, "c1");
    assert_eq!(q.tenant, "default_tenant");
    assert_eq!(q.database, "default_database");
    let e = translate_get_collection(true, None, None, None, true).unwrap_err();
    assert_eq!(e.code, ChromaErrorCode::InvalidArgument);
    assert_eq!(e.message.as_deref(), Some("Collection name pointer is null"));
    assert_eq!(e.source.as_deref(), Some("chroma_get_collection"));
}
