use redis_vector_store::command::Arg;
use redis_vector_store::driver::RedisStackVectorStoreDriver;
use redis_vector_store::engine::{hash_fields, read_vector_hash, RedisEngine, Reply};
use redis_vector_store::gcs::{blob_prefix, IngestReport};
use redis_vector_store::models::{format_vector, MetaValue};
use redis_vector_store::store::resolve_vector_id;
use redis_vector_store::{
    get_embedding_driver, get_redis_vector_store_driver, get_uuid, Metadata, Payload,
    PointStruct, RedisConfig, VectorStoreError,
};

fn text_args(args: &[Arg]) -> Vec<String> {
    args.iter()
        .map(|a| match a {
            Arg::Text(s) => s.clone(),
            Arg::Bytes(b) => format!("<{} bytes>", b.len()),
            Arg::Doc(_) => "<doc>".to_string(),
        })
        .collect()
}

#[test]
fn uuid_of_vector_text() {
    let v = vec![1.0f64.to_bits(), 0.5f64.to_bits()];
    assert_eq!(get_uuid(&v), "927a2c76-5907-59ff-a178-73da63424cc0");
    assert_eq!(get_uuid(&[]), "3a332da2-150b-5761-b9ad-6084b75a3c80");
}

#[test]
fn created_point_gets_content_id() {
    let v = vec![1.0f64.to_bits(), 0.5f64.to_bits()];
    let p = PointStruct::create(v, "c", Metadata::new("u", 1, "s"));
    assert_eq!(p.id, "927a2c76-5907-59ff-a178-73da63424cc0");
    assert_eq!(p.payload.content, "c");
}

#[test]
fn metadata_with_extra_replaces_existing_field() {
    let m = Metadata::new("u", 3, "s")
        .with_extra("a", MetaValue::Bool(true))
        .with_extra("b", MetaValue::Null)
        .with_extra("a", MetaValue::Bool(false));
    assert_eq!(m.extra.len(), 2);
    assert_eq!(m.extra[0].0, "a");
    assert!(matches!(m.extra[0].1, MetaValue::Bool(false)));
    assert_eq!(m.extra[1].0, "b");
    let m = m.with_uri("v").with_chunk_id(9).with_source("t");
    assert_eq!((m.uri.as_str(), m.chunk_id, m.source.as_str()), ("v", 9, "t"));
}

#[test]
fn compound_ids_override_collection() {
    assert_eq!(resolve_vector_id("docs:a", None), ("docs".to_string(), "a".to_string()));
    assert_eq!(resolve_vector_id("x:y:z", Some("c")), ("x".to_string(), "y:z".to_string()));
    assert_eq!(resolve_vector_id("a", Some("c")), ("c".to_string(), "a".to_string()));
    assert_eq!(resolve_vector_id("a", None), ("empty".to_string(), "a".to_string()));
}

#[test]
fn create_collection_plan() {
    let e = RedisEngine::with_dimension("docs", 3);
    assert!(e.create_collection(true).is_empty());
    let cmds = e.create_collection(false);
    assert_eq!(cmds.len(), 3);
    let mut it = cmds.into_iter();
    let create = text_args(&it.next().unwrap().into_args());
    assert_eq!(
        create,
        vec![
            "FT.CREATE", "docs", "ON", "HASH", "PREFIX", "1", "docs:", "SCHEMA", "id", "TAG",
            "vector", "VECTOR", "FLAT", "6", "TYPE", "FLOAT64", "DIM", "3", "DISTANCE_METRIC",
            "COSINE", "metadata_json_id", "TAG"
        ]
    );
    let doc = text_args(&it.next().unwrap().into_args());
    assert_eq!(doc, vec!["JSON.SET", "metadata:docs:empty", "$", "<doc>"]);
    let hash = text_args(&it.next().unwrap().into_args());
    assert_eq!(
        hash,
        vec!["HSET", "docs:empty", "vector", "<24 bytes>", "metadata_json_id", "metadata:docs:empty"]
    );
}

#[test]
fn delete_collection_plan() {
    let e = RedisEngine::new("docs");
    let drop = e.delete_collection();
    assert_eq!(text_args(&drop.into_args()), vec!["FT.DROPINDEX", "docs", "DD"]);
    let (cleanup, outcome) = e.after_drop(Ok(()));
    assert!(outcome.is_ok());
    assert_eq!(text_args(&cleanup.unwrap().into_args()), vec!["JSON.DEL", "metadata:docs:empty", "$"]);
    let (cleanup, outcome) = e.after_drop(Err("no such index".to_string()));
    assert!(cleanup.is_none());
    assert_eq!(outcome, Err(VectorStoreError::RedisError("no such index".to_string())));
}

#[test]
fn record_commands() {
    let e = RedisEngine::new("docs");
    let p = PointStruct::new("a", vec![1.0f64.to_bits()], Payload::new("x", Metadata::new("", 0, "")));
    let (cmds, (vid, mid)) = e.add_vector_and_metadata(p, true);
    assert_eq!((vid.as_str(), mid.as_str()), ("a", "metadata:a"));
    let mut it = cmds.into_iter();
    assert_eq!(
        text_args(&it.next().unwrap().into_args()),
        vec!["HSET", "docs:a", "vector", "<8 bytes>", "metadata_json_id", "metadata:a"]
    );
    assert_eq!(text_args(&it.next().unwrap().into_args()), vec!["JSON.SET", "metadata:a", "$", "<doc>"]);
    let del: Vec<Vec<String>> = e
        .delete_vector_and_metadata("a")
        .into_iter()
        .map(|c| text_args(&c.into_args()))
        .collect();
    assert_eq!(del, vec![vec!["DEL", "docs:a"], vec!["JSON.DEL", "metadata:a", "$"]]);
    assert_eq!(text_args(&e.vector_lookup("a").into_args()), vec!["HGETALL", "docs:a"]);
}

#[test]
fn hash_reading() {
    assert!(matches!(read_vector_hash(vec![]), Ok(None)));
    let v = 1.0f64.to_bits();
    let fields = vec![
        ("metadata_json_id".to_string(), b"metadata:a".to_vec()),
        ("vector".to_string(), v.to_le_bytes().to_vec()),
    ];
    match read_vector_hash(fields) {
        Ok(Some((vector, reference))) => {
            assert_eq!(vector, vec![v]);
            assert_eq!(reference, "metadata:a");
        }
        _ => panic!("expected a record"),
    }
    let no_vector = vec![("metadata_json_id".to_string(), b"m".to_vec())];
    assert_eq!(
        read_vector_hash(no_vector),
        Err(VectorStoreError::IntegrityError("Vector not found in Redis hash".to_string()))
    );
    let no_ref = vec![("vector".to_string(), vec![])];
    assert_eq!(
        read_vector_hash(no_ref),
        Err(VectorStoreError::IntegrityError("Metadata ID not found in Redis hash".to_string()))
    );
    let bad_ref = vec![("vector".to_string(), vec![]), ("metadata_json_id".to_string(), vec![0xff, 0xfe])];
    assert_eq!(
        read_vector_hash(bad_ref),
        Err(VectorStoreError::IntegrityError("Invalid UTF-8 in metadata ID".to_string()))
    );
}

#[test]
fn add_creates_collection_first_when_missing() {
    let e = RedisEngine::with_dimension("docs", 2);
    let p = PointStruct::new("a", vec![1, 2], Payload::new("x", Metadata::new("", 0, "")));
    let (cmds, _) = e.add_vector_and_metadata(p, false);
    let names: Vec<String> = cmds.into_iter().map(|c| text_args(&c.into_args())[0].clone()).collect();
    assert_eq!(names, vec!["FT.CREATE", "JSON.SET", "HSET", "HSET", "JSON.SET"]);
}

#[test]
fn hash_reply_pairs_names_and_values() {
    let reply = Reply::Bulk(vec![
        Reply::Data(b"vector".to_vec()),
        Reply::Data(vec![1, 2]),
        Reply::Int(3),
        Reply::Data(vec![4]),
        Reply::Data(b"metadata_json_id".to_vec()),
        Reply::Data(b"metadata:a".to_vec()),
        Reply::Data(b"odd".to_vec()),
    ]);
    let f = hash_fields(reply);
    assert_eq!(
        f,
        vec![
            ("vector".to_string(), vec![1, 2]),
            ("metadata_json_id".to_string(), b"metadata:a".to_vec())
        ]
    );
    assert!(hash_fields(Reply::Nil).is_empty());
}

#[test]
fn vector_text_lists_elements() {
    assert_eq!(format_vector(&[1, 22, 333]), "[1, 22, 333]");
    assert_eq!(format_vector(&[]), "[]");
}

#[test]
fn dangling_reference_is_integrity_error() {
    let r = RedisEngine::get_vector("a", vec![], None);
    assert!(matches!(r, Err(VectorStoreError::IntegrityError(_))));
    let p = RedisEngine::get_vector("a", vec![5], Some(Payload::new("c", Metadata::new("", 0, "")))).unwrap();
    assert_eq!((p.id.as_str(), p.vector.clone(), p.payload.content.as_str()), ("a", vec![5], "c"));
}

#[test]
fn same_vector_without_id_gets_same_id() {
    let d = get_redis_vector_store_driver(RedisConfig::new("localhost", 6379, None), "docs");
    let v = vec![1.0f64.to_bits(), 0.5f64.to_bits()];
    let (id1, _) = d.upsert_vector(v.clone(), None, None, None, None, true);
    let (id2, _) = d.upsert_vector(v.clone(), None, Some("n"), None, Some("other"), false);
    assert_eq!(id1, id2);
    assert_eq!(id1, "927a2c76-5907-59ff-a178-73da63424cc0");
    let (id3, _) = d.upsert_vector(v, Some("mine"), None, None, None, true);
    assert_eq!(id3, "mine");
}

#[test]
fn upsert_merges_metadata() {
    let d = get_redis_vector_store_driver(RedisConfig::new("localhost", 6379, None), "docs");
    let meta = MetaValue::Object(vec![
        ("uri".to_string(), MetaValue::Text("u".to_string())),
        ("lang".to_string(), MetaValue::Text("en".to_string())),
        ("chunk_id".to_string(), MetaValue::Number("7".to_string())),
        ("source".to_string(), MetaValue::Text("s".to_string())),
    ]);
    let p = d.prepare_point(vec![], Some("a"), Some("ns"), Some(meta), Some("body"));
    assert_eq!(p.payload.content, "body");
    let m = &p.payload.metadata;
    assert_eq!((m.uri.as_str(), m.chunk_id, m.source.as_str()), ("u", 7, "s"));
    assert_eq!(m.extra.len(), 2);
    assert_eq!(m.extra[0].0, "lang");
    assert_eq!(m.extra[1].0, "namespace");
    assert!(matches!(&m.extra[1].1, MetaValue::Text(t) if t == "ns"));
}

#[test]
fn upsert_defaults_required_fields() {
    let d = get_redis_vector_store_driver(RedisConfig::new("localhost", 6379, None), "docs");
    let meta = MetaValue::Object(vec![("chunk_id".to_string(), MetaValue::Number("1.5".to_string()))]);
    let p = d.prepare_point(vec![], Some("a"), None, Some(meta), None);
    let m = &p.payload.metadata;
    assert_eq!((m.uri.as_str(), m.chunk_id, m.source.as_str()), ("", 0, ""));
    assert!(m.extra.is_empty());
    assert_eq!(p.payload.content, "");
    let p = d.prepare_point(vec![], Some("a"), None, Some(MetaValue::Bool(true)), None);
    assert!(p.payload.metadata.extra.is_empty());
}

#[test]
fn driver_defaults() {
    let d = RedisStackVectorStoreDriver::new(RedisConfig::new("h", 1, None), "docs", Some("text"));
    assert_eq!(d.content_payload_key, "text");
    let d = get_redis_vector_store_driver(RedisConfig::new("h", 1, None), "docs");
    assert_eq!(d.content_payload_key, "data");
    assert_eq!(d.get_engine().collection_name(), "docs");
    assert_eq!(d.get_engine().dimension(), 768);
}

#[test]
fn embedding_driver_settings() {
    let e = get_embedding_driver("text-embedding", Some("key"));
    assert_eq!(e.model(), "text-embedding");
    assert_eq!(e.api_key(), Some("key"));
}

#[test]
fn ingestion_report_keeps_each_outcome() {
    assert_eq!(blob_prefix("docs"), "docs/");
    let mut r = IngestReport::new();
    r.record("docs/1.json".to_string(), Ok("a".to_string()));
    r.record("docs/2.json".to_string(), Err(VectorStoreError::DeserializationError("bad".to_string())));
    r.record("docs/3.json".to_string(), Ok("b".to_string()));
    assert_eq!(r.success_count(), 2);
    assert_eq!(r.inserted, vec!["a".to_string(), "b".to_string()]);
    assert_eq!(r.failed.len(), 1);
    assert_eq!(r.failed[0].0, "docs/2.json");
}
