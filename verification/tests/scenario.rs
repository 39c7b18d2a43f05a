//! One end-to-end walk through the translation layer: the calls a caller
//! would make to create a client and a database, create a collection, add
//! three records and query for the two nearest, with the engine's response
//! materialized at the end.

use chroma_ffi::client::{translate_create_client, translate_create_database};
use chroma_ffi::collection::ChromaCollection;
use chroma_ffi::management::translate_create_collection;
use chroma_ffi::operations::{translate_add, translate_count, translate_query};
use chroma_ffi::result::{materialize_query, QueryResponseData};

fn buf(s: &str) -> Vec<u8> {
    let mut v = s.as_bytes().to_vec();
    v.push(0);
    v
}

fn embedding(values: &[f32]) -> Vec<u32> {
    values.iter().map(|v| v.to_bits()).collect()
}

#[test]
fn three_records_nearest_first() {
    // Client with the default configuration and no persistence path.
    let cfg = translate_create_client(false, None, 1000, None, true).unwrap();
    assert!(cfg.persist_path.is_none());

    // Database "db1" under the default tenant.
    let db = translate_create_database(true, Some(buf("db1")), None).unwrap();
    assert_eq!(db.tenant, "default_tenant");
    assert_eq!(db.name, "db1");

    // Collection "c1", not get-or-create.
    let cc = translate_create_collection(
        true,
        Some(buf("c1")),
        None,
        None,
        false,
        None,
        Some(buf("db1")),
        true,
    )
    .unwrap();
    assert!(!cc.get_or_create);
    assert_eq!(cc.database, "db1");

    // The engine resolves the collection to an identifier; the handle
    // carries it textually.
    let id = uuid::Uuid::parse_str("7f2c8a64-3d91-4b5e-8c07-5a1d9e6b2f43").unwrap();
    let collection = ChromaCollection::new(
        id.to_string(),
        String::from("default_tenant"),
        String::from("db1"),
    );

    // Three records with three-dimensional embeddings and no optional
    // payloads translate cleanly.
    let ids = Some(vec![Some(buf("a")), Some(buf("b")), Some(buf("c"))]);
    let embeddings = Some(vec![
        Some(embedding(&[1.0, 0.0, 0.0])),
        Some(embedding(&[0.0, 1.0, 0.0])),
        Some(embedding(&[0.0, 0.0, 1.0])),
    ]);
    let add = translate_add(true, Some(&collection), ids, embeddings, None, None).unwrap();
    assert_eq!(add.ids.len(), 3);
    assert_eq!(add.collection_id, id.as_u128());

    // A count request on the same collection targets the same identifier.
    let count = translate_count(true, Some(&collection), true).unwrap();
    assert_eq!(count.collection_id, add.collection_id);

    // Query for the two nearest to a vector near record "a", distances
    // requested.
    let q = translate_query(
        true,
        Some(&collection),
        Some(embedding(&[0.9, 0.1, 0.0])),
        3,
        2,
        None,
        None,
        false,
        false,
        false,
        true,
        true,
    )
    .unwrap();
    assert_eq!(q.n_results, 2);
    assert_eq!(q.selection, vec!["distances"]);

    // The engine answers nearest-first; materialization keeps the order and
    // hands back non-null distances aligned with the ids.
    let response = QueryResponseData {
        ids: vec![vec![String::from("a"), String::from("b")]],
        distances: Some(vec![vec![Some(0.02f32.to_bits()), Some(1.31f32.to_bits())]]),
        metadatas_json: None,
        documents: None,
    };
    let r = materialize_query(response);
    let got_ids = r.ids.unwrap();
    assert_eq!(got_ids, vec!["a", "b"]);
    let d = r.distances.unwrap();
    assert_eq!(d.len(), 2);
    assert!(f32::from_bits(d[0]) < f32::from_bits(d[1]));
    assert!(r.metadata_json.is_none());
    assert!(r.documents.is_none());
}
