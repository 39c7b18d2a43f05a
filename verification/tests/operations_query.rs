use chroma_ffi::collection::ChromaCollection;
use chroma_ffi::error::ChromaErrorCode;
use chroma_ffi::operations::{
    build_selection, translate_count, translate_delete, translate_get, translate_query,
};

const COLLECTION_ID: &str = "4a2f0c9e-8b31-4d6a-9f2e-1c5b7a8d9e0f";

fn buf(s: &str) -> Vec<u8> {
    let mut v = s.as_bytes().to_vec();
    v.push(0);
    v
}

fn collection() -> ChromaCollection {
    ChromaCollection::new(
        String::from(COLLECTION_ID),
        String::from("default_tenant"),
        String::from("default_database"),
    )
}

fn embedding(values: &[f32]) -> Vec<u32> {
    values.iter().map(|v| v.to_bits()).collect()
}

#[test]
fn query_dimension_mismatch_reports_both_lengths() {
    let c = collection();
    let e = translate_query(
        true,
        Some(&c),
        Some(embedding(&[1.0, 2.0, 3.0])),
        4,
        10,
        None,
        None,
        false,
        false,
        false,
        true,
        true,
    )
    .unwrap_err();
    assert_eq!(e.code, ChromaErrorCode::InvalidArgument);
    assert_eq!(e.message.as_deref(), Some("Invalid query embedding"));
    assert_eq!(e.details.as_deref(), Some("Expected dimension 4, got 3"));
    assert_eq!(e.source.as_deref(), Some("chroma_query"));
}

#[test]
fn query_zero_dimension_is_rejected() {
    let c = collection();
    let e = translate_query(
        true,
        Some(&c),
        Some(vec![]),
        0,
        10,
        None,
        None,
        false,
        false,
        false,
        false,
        true,
    )
    .unwrap_err();
    assert_eq!(e.code, ChromaErrorCode::InvalidArgument);
    assert_eq!(e.details.as_deref(), Some("Expected dimension 0, got 0"));
}

#[test]
fn query_translates_with_selection_order() {
    let c = collection();
    let q = translate_query(
        true,
        Some(&c),
        Some(embedding(&[0.5, 0.5])),
        2,
        7,
        Some(buf("{\"k\":{\"$eq\":1}}")),
        None,
        true,
        true,
        true,
        true,
        true,
    )
    .expect("must succeed");
    assert_eq!(q.n_results, 7);
    assert_eq!(q.embedding, embedding(&[0.5, 0.5]));
    assert_eq!(q.where_json.as_deref(), Some("{\"k\":{\"$eq\":1}}"));
    assert!(q.where_document_json.is_none());
    assert_eq!(q.selection, vec!["embeddings", "metadatas", "documents", "distances"]);
    assert_eq!(q.collection_id, uuid::Uuid::parse_str(COLLECTION_ID).unwrap().as_u128());
}

#[test]
fn query_requires_embedding_pointer() {
    let c = collection();
    let e = translate_query(
        true,
        Some(&c),
        None,
        3,
        10,
        None,
        None,
        false,
        false,
        false,
        false,
        true,
    )
    .unwrap_err();
    assert_eq!(e.message.as_deref(), Some("Query embeddings pointer is null"));
}

#[test]
fn query_rejects_malformed_filter() {
    let c = collection();
    let e = translate_query(
        true,
        Some(&c),
        Some(embedding(&[1.0])),
        1,
        10,
        Some(buf("{broken")),
        None,
        false,
        false,
        false,
        false,
        true,
    )
    .unwrap_err();
    assert_eq!(e.code, ChromaErrorCode::ValidationError);
    assert_eq!(e.message.as_deref(), Some("Failed to create where filters"));
    let details = e.details.unwrap();
    assert!(details.starts_with("Filter creation error: "), "{details}");
}

#[test]
fn selection_orders_are_stable() {
    assert_eq!(build_selection(false, false, false, false), Vec::<String>::new());
    assert_eq!(build_selection(false, true, false, true), vec!["metadatas", "distances"]);
    assert_eq!(build_selection(true, false, true, false), vec!["embeddings", "documents"]);
}

#[test]
fn get_requires_ids_or_filters() {
    let c = collection();
    let e = translate_get(true, Some(&c), None, None, None, 0, 0, false, false, false, true)
        .unwrap_err();
    assert_eq!(e.code, ChromaErrorCode::InvalidArgument);
    assert_eq!(
        e.message.as_deref(),
        Some("Either document IDs or filter criteria must be specified")
    );
    assert_eq!(e.source.as_deref(), Some("chroma_get"));
}

#[test]
fn get_translates_ids_and_limit() {
    let c = collection();
    let ids = Some(vec![Some(buf("a")), Some(buf("b"))]);
    let q = translate_get(true, Some(&c), ids, None, None, 5, 2, false, true, true, true)
        .expect("must succeed");
    assert_eq!(q.ids.as_ref().unwrap(), &vec!["a", "b"]);
    assert_eq!(q.limit, Some(5));
    assert_eq!(q.offset, 2);
    assert_eq!(q.selection, vec!["metadatas", "documents"]);
}

#[test]
fn get_zero_limit_means_unbounded() {
    let c = collection();
    let q = translate_get(
        true,
        Some(&c),
        None,
        Some(buf("{\"k\":1}")),
        None,
        0,
        0,
        false,
        false,
        false,
        true,
    )
    .unwrap();
    assert!(q.limit.is_none());
    assert!(q.ids.is_none());
    assert_eq!(q.where_json.as_deref(), Some("{\"k\":1}"));
}

#[test]
fn get_empty_id_array_with_filter_is_no_ids() {
    let c = collection();
    let q = translate_get(
        true,
        Some(&c),
        Some(vec![]),
        Some(buf("{\"k\":1}")),
        None,
        0,
        0,
        false,
        false,
        false,
        true,
    )
    .unwrap();
    assert!(q.ids.is_none());
}

#[test]
fn delete_requires_ids_or_filters() {
    let c = collection();
    let e = translate_delete(true, Some(&c), None, None, None).unwrap_err();
    assert_eq!(e.code, ChromaErrorCode::InvalidArgument);
    assert_eq!(
        e.message.as_deref(),
        Some("Either document IDs or filter criteria must be specified")
    );
    assert_eq!(e.source.as_deref(), Some("chroma_delete"));
}

#[test]
fn get_rejects_null_id_row_with_index() {
    let c = collection();
    let ids = Some(vec![Some(buf("a")), None, Some(buf("c"))]);
    let e = translate_get(true, Some(&c), ids, None, None, 0, 0, false, false, false, true)
        .unwrap_err();
    assert_eq!(e.code, ChromaErrorCode::InvalidArgument);
    assert_eq!(e.message.as_deref(), Some("ID pointer is null"));
    assert_eq!(e.details.as_deref(), Some("Null ID at index 1"));
    assert_eq!(e.source.as_deref(), Some("chroma_get"));
}

#[test]
fn delete_rejects_null_id_row_with_index() {
    let c = collection();
    let ids = Some(vec![None]);
    let e = translate_delete(true, Some(&c), ids, None, None).unwrap_err();
    assert_eq!(e.code, ChromaErrorCode::InvalidArgument);
    assert_eq!(e.message.as_deref(), Some("ID pointer is null"));
    assert_eq!(e.details.as_deref(), Some("Null ID at index 0"));
    assert_eq!(e.source.as_deref(), Some("chroma_delete"));
}

#[test]
fn delete_with_ids_translates() {
    let c = collection();
    let ids = Some(vec![Some(buf("a"))]);
    let q = translate_delete(true, Some(&c), ids, None, None).unwrap();
    assert_eq!(q.ids.as_ref().unwrap(), &vec!["a"]);
    assert!(q.where_json.is_none());
}

#[test]
fn delete_with_document_filter_translates() {
    let c = collection();
    let q = translate_delete(
        true,
        Some(&c),
        None,
        None,
        Some(buf("{\"$contains\":\"x\"}")),
    )
    .unwrap();
    assert!(q.ids.is_none());
    assert_eq!(q.where_document_json.as_deref(), Some("{\"$contains\":\"x\"}"));
}

#[test]
fn delete_rejects_malformed_filter() {
    let c = collection();
    let e = translate_delete(true, Some(&c), None, Some(buf("nope")), None).unwrap_err();
    assert_eq!(e.code, ChromaErrorCode::ValidationError);
    assert_eq!(e.message.as_deref(), Some("Failed to create where filters"));
}

#[test]
fn count_translates_and_checks_pointers() {
    let c = collection();
    let q = translate_count(true, Some(&c), true).unwrap();
    assert_eq!(q.tenant, "default_tenant");
    assert_eq!(q.collection_id, uuid::Uuid::parse_str(COLLECTION_ID).unwrap().as_u128());
    let e = translate_count(true, Some(&c), false).unwrap_err();
    assert_eq!(e.message.as_deref(), Some("Result pointer is null"));
    assert_eq!(e.source.as_deref(), Some("chroma_count"));
    let e = translate_count(true, None, true).unwrap_err();
    assert_eq!(e.message.as_deref(), Some("Collection handle pointer is null"));
}
