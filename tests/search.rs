use redis_vector_store::driver::{RedisStackVectorStoreDriver, SearchOutcome};
use redis_vector_store::engine::Reply;
use redis_vector_store::search::{knn_query, parse_scan_reply, parse_search_reply, SearchHit};
use redis_vector_store::command::Arg;
use redis_vector_store::{
    get_redis_vector_store_driver, Metadata, Payload, PointStruct, RedisConfig, VectorStoreError,
};

fn data(s: &str) -> Reply {
    Reply::Data(s.as_bytes().to_vec())
}

fn point(id: &str, content: &str) -> PointStruct {
    PointStruct::new(id, vec![9], Payload::new(content, Metadata::new("", 0, "")))
}

fn hit(id: &str, score: &str) -> SearchHit {
    SearchHit { id: id.to_string(), score: score.to_string(), vector: vec![] }
}

#[test]
fn knn_query_text() {
    assert_eq!(knn_query(None, 10), "(*)=>[KNN 10 @vector $vec AS vector_score]");
    assert_eq!(
        knn_query(Some("ns"), 5),
        "((@namespace:{ns}))=>[KNN 5 @vector $vec AS vector_score]"
    );
}

#[test]
fn query_command_arguments() {
    let d = get_redis_vector_store_driver(RedisConfig::new("h", 1, None), "docs");
    let args = d.query_command(&[1.0f64.to_bits()], Some(3), true, None).into_args();
    let texts: Vec<String> = args
        .iter()
        .map(|a| match a {
            Arg::Text(s) => s.clone(),
            Arg::Bytes(b) => format!("<{} bytes>", b.len()),
            Arg::Doc(_) => "<doc>".to_string(),
        })
        .collect();
    assert_eq!(
        texts,
        vec![
            "FT.SEARCH", "docs", "(*)=>[KNN 3 @vector $vec AS vector_score]", "PARAMS", "2",
            "vec", "<8 bytes>", "RETURN", "2", "vector_score", "vector", "SORTBY",
            "vector_score", "LIMIT", "0", "3", "DIALECT", "2"
        ]
    );
    let args = d.query_command(&[], None, false, Some("n")).into_args();
    assert_eq!(args.len(), 17);
    assert!(matches!(&args[8], Arg::Text(s) if s == "1"));
    assert!(matches!(&args[14], Arg::Text(s) if s == "10"));
}

#[test]
fn search_reply_parsing() {
    let v = 2.0f64.to_bits();
    let reply = vec![
        Reply::Int(3),
        data("docs:a"),
        Reply::Bulk(vec![data("vector_score"), data("0.25"), data("vector"), Reply::Data(v.to_le_bytes().to_vec())]),
        Reply::Status("docs:b".to_string()),
        Reply::Bulk(vec![data("vector_score"), data("nan")]),
        data("docs:c:d"),
        Reply::Bulk(vec![data("vector_score"), data("0.5")]),
        data("docs:e"),
        Reply::Int(1),
        data("plain"),
        Reply::Bulk(vec![]),
    ];
    let hits = parse_search_reply(&reply, true);
    assert_eq!(hits.len(), 4);
    assert_eq!((hits[0].id.as_str(), hits[0].score.as_str()), ("a", "0.25"));
    assert_eq!(hits[0].vector, vec![v]);
    assert_eq!((hits[1].id.as_str(), hits[1].score.as_str()), ("b", "0"));
    assert_eq!((hits[2].id.as_str(), hits[2].score.as_str()), ("c:d", "0.5"));
    assert_eq!((hits[3].id.as_str(), hits[3].score.as_str()), ("plain", "0"));
    let hits = parse_search_reply(&reply, false);
    assert!(hits[0].vector.is_empty());
    assert!(parse_search_reply(&vec![Reply::Int(0)], true).is_empty());
    assert!(parse_search_reply(&vec![], true).is_empty());
}

#[test]
fn knn_entries_keep_order_and_limit() {
    let hits = vec![hit("a", "0.1"), hit("b", "0.2"), hit("c", "0.3"), hit("d", "0.4")];
    let points = vec![Some(point("a", "A")), None, Some(point("c", "C")), Some(point("d", "D"))];
    let entries = RedisStackVectorStoreDriver::query_entries(hits, points, true, Some(2));
    let got: Vec<(&str, &str, &str)> = entries
        .iter()
        .map(|e| (e.id.as_str(), e.score.as_str(), e.meta.content.as_str()))
        .collect();
    assert_eq!(got, vec![("a", "0.1", "A"), ("c", "0.3", "C")]);
    assert_eq!(entries[0].vector, vec![9]);
    let entries = RedisStackVectorStoreDriver::query_entries(
        vec![hit("a", "0.1")],
        vec![Some(point("a", "A"))],
        false,
        None,
    );
    assert!(entries[0].vector.is_empty());
}

#[test]
fn fallback_is_unranked_and_bounded() {
    let reply = Reply::Bulk(vec![
        data("0"),
        Reply::Bulk(vec![data("docs:a"), data("docs:b"), data("nocolon"), data("docs:c")]),
    ]);
    let ids = parse_scan_reply(&reply);
    assert_eq!(ids, vec!["a".to_string(), "b".to_string(), "c".to_string()]);
    let points = vec![Some(point("a", "A")), None, Some(point("c", "C")), Some(point("d", "D"))];
    let entries = RedisStackVectorStoreDriver::fallback_entries(points, Some(2));
    assert_eq!(entries.len(), 2);
    assert!(entries.iter().all(|e| e.score == "0"));
    assert_eq!(entries[1].id, "c");
}

#[test]
fn failed_scan_fails_the_fallback() {
    let r = RedisStackVectorStoreDriver::after_scan(Err("connection reset".to_string()));
    assert_eq!(r, Err(VectorStoreError::RedisError("connection reset".to_string())));
    let ok = Reply::Bulk(vec![data("0"), Reply::Bulk(vec![data("docs:a")])]);
    assert_eq!(RedisStackVectorStoreDriver::after_scan(Ok(ok)), Ok(vec!["a".to_string()]));
}

#[test]
fn failed_search_turns_to_scan() {
    let d = get_redis_vector_store_driver(RedisConfig::new("h", 1, None), "docs");
    match d.after_search(Err("syntax error".to_string()), false, Some(4)) {
        SearchOutcome::Fallback(c) => {
            let args: Vec<String> = c
                .into_args()
                .iter()
                .map(|a| match a {
                    Arg::Text(s) => s.clone(),
                    _ => String::new(),
                })
                .collect();
            assert_eq!(args, vec!["SCAN", "0", "MATCH", "docs:*", "COUNT", "4"]);
        }
        SearchOutcome::Hits(_) => panic!("expected the fallback"),
    }
    match d.after_search(Ok(vec![Reply::Int(0)]), false, None) {
        SearchOutcome::Hits(h) => assert!(h.is_empty()),
        SearchOutcome::Fallback(_) => panic!("expected hits"),
    }
}

#[test]
fn loads_skip_missing_records() {
    let points = vec![None, Some(point("b", "B"))];
    let entries = RedisStackVectorStoreDriver::load_entries(points);
    assert_eq!(entries.len(), 1);
    assert_eq!((entries[0].id.as_str(), entries[0].score.as_str()), ("b", "0"));
    assert!(RedisStackVectorStoreDriver::load_entry(None).is_none());
}
