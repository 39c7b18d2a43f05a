use chroma_ffi::collection::ChromaCollection;
use chroma_ffi::error::ChromaErrorCode;
use chroma_ffi::operations::{translate_add, translate_update, translate_upsert};

const COLLECTION_ID: &str = "4a2f0c9e-8b31-4d6a-9f2e-1c5b7a8d9e0f";

fn buf(s: &str) -> Vec<u8> {
    let mut v = s.as_bytes().to_vec();
    v.push(0);
    v
}

fn collection() -> ChromaCollection {
    ChromaCollection::new(
        String::from(COLLECTION_ID),
        String::from("default_tenant"),
        String::from("default_database"),
    )
}

fn embedding(values: &[f32]) -> Vec<u32> {
    values.iter().map(|v| v.to_bits()).collect()
}

#[test]
fn add_plain_batch_succeeds() {
    let c = collection();
    let ids = Some(vec![Some(buf("a")), Some(buf("b")), Some(buf("c"))]);
    let embeddings = Some(vec![
        Some(embedding(&[1.0, 0.0, 0.0])),
        Some(embedding(&[0.0, 1.0, 0.0])),
        Some(embedding(&[0.0, 0.0, 1.0])),
    ]);
    let q = translate_add(true, Some(&c), ids, embeddings, None, None).expect("must succeed");
    assert_eq!(q.tenant, "default_tenant");
    assert_eq!(q.database, "default_database");
    assert_eq!(q.collection_id, uuid::Uuid::parse_str(COLLECTION_ID).unwrap().as_u128());
    assert_eq!(q.ids, vec!["a", "b", "c"]);
    assert_eq!(q.embeddings.len(), 3);
    assert_eq!(q.embeddings[0], embedding(&[1.0, 0.0, 0.0]));
    assert!(q.documents.is_none());
    assert!(q.metadatas_json.is_none());
}

#[test]
fn add_rejects_null_id_row_with_index() {
    let c = collection();
    let ids = Some(vec![Some(buf("a")), None]);
    let embeddings = Some(vec![Some(embedding(&[1.0])), Some(embedding(&[2.0]))]);
    let e = translate_add(true, Some(&c), ids, embeddings, None, None).unwrap_err();
    assert_eq!(e.code, ChromaErrorCode::InvalidArgument);
    assert_eq!(e.message.as_deref(), Some("ID pointer is null"));
    assert_eq!(e.details.as_deref(), Some("Null ID at index 1"));
    assert_eq!(e.source.as_deref(), Some("chroma_add"));
}

#[test]
fn update_rejects_null_id_row_with_index() {
    let c = collection();
    let ids = Some(vec![None, Some(buf("b"))]);
    let e = translate_update(true, Some(&c), ids, None, None, None).unwrap_err();
    assert_eq!(e.code, ChromaErrorCode::InvalidArgument);
    assert_eq!(e.message.as_deref(), Some("ID pointer is null"));
    assert_eq!(e.details.as_deref(), Some("Null ID at index 0"));
    assert_eq!(e.source.as_deref(), Some("chroma_update"));
}

#[test]
fn add_requires_embeddings_array() {
    let c = collection();
    let ids = Some(vec![Some(buf("a"))]);
    let e = translate_add(true, Some(&c), ids, None, None, None).unwrap_err();
    assert_eq!(e.code, ChromaErrorCode::InvalidArgument);
    assert_eq!(e.message.as_deref(), Some("Embeddings pointer is null"));
    assert_eq!(e.source.as_deref(), Some("chroma_add"));
}

#[test]
fn add_rejects_null_embedding_row_with_index() {
    let c = collection();
    let ids = Some(vec![Some(buf("a")), Some(buf("b"))]);
    let embeddings = Some(vec![Some(embedding(&[1.0])), None]);
    let e = translate_add(true, Some(&c), ids, embeddings, None, None).unwrap_err();
    assert_eq!(e.code, ChromaErrorCode::InvalidArgument);
    assert_eq!(e.message.as_deref(), Some("Embedding pointer is null"));
    assert_eq!(e.details.as_deref(), Some("Null embedding at index 1"));
}

#[test]
fn add_requires_ids() {
    let c = collection();
    let e = translate_add(true, Some(&c), None, None, None, None).unwrap_err();
    assert_eq!(e.message.as_deref(), Some("IDs pointer is null"));
    let e = translate_add(true, Some(&c), Some(vec![]), None, None, None).unwrap_err();
    assert_eq!(e.message.as_deref(), Some("IDs count is zero"));
}

#[test]
fn add_requires_handles() {
    let c = collection();
    let ids = Some(vec![Some(buf("a"))]);
    let e = translate_add(false, Some(&c), ids.clone(), None, None, None).unwrap_err();
    assert_eq!(e.message.as_deref(), Some("Client handle pointer is null"));
    let e = translate_add(true, None, ids, None, None, None).unwrap_err();
    assert_eq!(e.message.as_deref(), Some("Collection handle pointer is null"));
}

#[test]
fn add_metadata_rows_are_validated_with_index() {
    let c = collection();
    let ids = Some(vec![Some(buf("a")), Some(buf("b"))]);
    let embeddings = Some(vec![Some(embedding(&[1.0])), Some(embedding(&[2.0]))]);
    let metadatas = Some(vec![Some(buf("{\"k\":1}")), Some(buf("not json"))]);
    let e = translate_add(true, Some(&c), ids, embeddings, metadatas, None).unwrap_err();
    assert_eq!(e.code, ChromaErrorCode::ValidationError);
    assert_eq!(e.message.as_deref(), Some("Invalid metadata JSON"));
    let details = e.details.unwrap();
    assert!(details.starts_with("Error parsing metadata at index 1: "), "{details}");
}

#[test]
fn add_metadata_empty_and_null_rows_are_absent() {
    let c = collection();
    let ids = Some(vec![Some(buf("a")), Some(buf("b")), Some(buf("c"))]);
    let embeddings = Some(vec![
        Some(embedding(&[1.0])),
        Some(embedding(&[2.0])),
        Some(embedding(&[3.0])),
    ]);
    let metadatas = Some(vec![Some(buf("{\"k\":1}")), Some(buf("")), None]);
    let q = translate_add(true, Some(&c), ids, embeddings, metadatas, None).unwrap();
    let m = q.metadatas_json.unwrap();
    assert_eq!(m.len(), 3);
    assert_eq!(m[0].as_deref(), Some("{\"k\":1}"));
    assert!(m[1].is_none());
    assert!(m[2].is_none());
}

#[test]
fn add_documents_empty_and_null_rows_are_absent() {
    let c = collection();
    let ids = Some(vec![Some(buf("a")), Some(buf("b")), Some(buf("c"))]);
    let embeddings = Some(vec![
        Some(embedding(&[1.0])),
        Some(embedding(&[2.0])),
        Some(embedding(&[3.0])),
    ]);
    let documents = Some(vec![Some(buf("doc a")), None, Some(buf(""))]);
    let q = translate_add(true, Some(&c), ids, embeddings, None, documents).unwrap();
    let d = q.documents.unwrap();
    assert_eq!(d[0].as_deref(), Some("doc a"));
    assert!(d[1].is_none());
    assert!(d[2].is_none());
}

#[test]
fn add_rejects_malformed_collection_id() {
    let c = ChromaCollection::new(
        String::from("not-a-uuid"),
        String::from("t"),
        String::from("d"),
    );
    let ids = Some(vec![Some(buf("a"))]);
    let embeddings = Some(vec![Some(embedding(&[1.0]))]);
    let e = translate_add(true, Some(&c), ids, embeddings, None, None).unwrap_err();
    assert_eq!(e.code, ChromaErrorCode::InvalidUuid);
    assert_eq!(e.code.number(), 6);
    assert_eq!(e.message.as_deref(), Some("Invalid collection UUID"));
    let details = e.details.unwrap();
    assert!(details.starts_with("UUID parse error: "), "{details}");
}

#[test]
fn update_allows_absent_embedding_rows() {
    let c = collection();
    let ids = Some(vec![Some(buf("a")), Some(buf("b"))]);
    let embeddings = Some(vec![None, Some(embedding(&[4.0, 5.0]))]);
    let q = translate_update(true, Some(&c), ids, embeddings, None, None).expect("must succeed");
    let em = q.embeddings.unwrap();
    assert!(em[0].is_none());
    assert_eq!(em[1].as_ref().unwrap(), &embedding(&[4.0, 5.0]));
}

#[test]
fn update_allows_fully_absent_embeddings() {
    let c = collection();
    let ids = Some(vec![Some(buf("a"))]);
    let q = translate_update(true, Some(&c), ids, None, None, None).unwrap();
    assert!(q.embeddings.is_none());
}

#[test]
fn upsert_treats_embedding_rows_as_optional() {
    let c = collection();
    let ids = Some(vec![Some(buf("a")), Some(buf("b"))]);

    // The array as a whole may be absent.
    let q = translate_upsert(true, Some(&c), ids.clone(), None, None, None).unwrap();
    assert!(q.embeddings.is_none());

    // A null row means no embedding is supplied for that id, not an error.
    let embeddings = Some(vec![None, Some(embedding(&[4.0, 5.0]))]);
    let q = translate_upsert(true, Some(&c), ids, embeddings, None, None).unwrap();
    let em = q.embeddings.unwrap();
    assert!(em[0].is_none());
    assert_eq!(em[1].as_ref().unwrap(), &embedding(&[4.0, 5.0]));
}
