use std::collections::HashMap;

use redis_vector_store::command::{Arg, Command};
use redis_vector_store::engine::{hash_fields, read_vector_hash, RedisEngine, Reply};
use redis_vector_store::{Metadata, Payload, PointStruct};

/// A backend held in memory that performs the library's commands.
#[derive(Default)]
struct MemoryBackend {
    indexes: HashMap<String, String>,
    hashes: HashMap<String, Vec<(String, Vec<u8>)>>,
    docs: HashMap<String, (String, String, usize, String)>,
}

fn text(a: &Arg) -> String {
    match a {
        Arg::Text(s) => s.clone(),
        _ => panic!("expected text"),
    }
}

impl MemoryBackend {
    fn run(&mut self, c: Command) -> Result<Reply, String> {
        let args = c.into_args();
        match text(&args[0]).as_str() {
            "FT.INFO" => {
                if self.indexes.contains_key(&text(&args[1])) {
                    Ok(Reply::Okay)
                } else {
                    Err("Unknown index name".to_string())
                }
            }
            "FT.CREATE" => {
                self.indexes.insert(text(&args[1]), text(&args[6]));
                Ok(Reply::Okay)
            }
            "FT.DROPINDEX" => match self.indexes.remove(&text(&args[1])) {
                Some(prefix) => {
                    self.hashes.retain(|k, _| !k.starts_with(&prefix));
                    Ok(Reply::Okay)
                }
                None => Err("Unknown index name".to_string()),
            },
            "FT.SEARCH" => {
                let prefix = self.indexes.get(&text(&args[1])).ok_or("Unknown index name")?;
                let n = self.hashes.keys().filter(|k| k.starts_with(prefix.as_str())).count();
                Ok(Reply::Bulk(vec![Reply::Int(n as i64)]))
            }
            "HSET" => {
                let mut fields = Vec::new();
                let mut i = 2;
                while i + 1 < args.len() {
                    let value = match &args[i + 1] {
                        Arg::Text(s) => s.as_bytes().to_vec(),
                        Arg::Bytes(b) => b.clone(),
                        Arg::Doc(_) => panic!("document in a hash"),
                    };
                    fields.push((text(&args[i]), value));
                    i += 2;
                }
                self.hashes.insert(text(&args[1]), fields);
                Ok(Reply::Okay)
            }
            "EXISTS" => Ok(Reply::Int(self.hashes.contains_key(&text(&args[1])) as i64)),
            "HGETALL" => {
                let mut items = Vec::new();
                for (name, value) in self.hashes.get(&text(&args[1])).cloned().unwrap_or_default() {
                    items.push(Reply::Data(name.into_bytes()));
                    items.push(Reply::Data(value));
                }
                Ok(Reply::Bulk(items))
            }
            "DEL" => {
                let n = self.hashes.remove(&text(&args[1])).map_or(0, |_| 1);
                Ok(Reply::Int(n))
            }
            "JSON.SET" => match &args[3] {
                Arg::Doc(p) => {
                    let m = &p.metadata;
                    self.docs.insert(
                        text(&args[1]),
                        (p.content.clone(), m.uri.clone(), m.chunk_id, m.source.clone()),
                    );
                    Ok(Reply::Okay)
                }
                _ => Err("expected a document".to_string()),
            },
            "JSON.DEL" => {
                let n = self.docs.remove(&text(&args[1])).map_or(0, |_| 1);
                Ok(Reply::Int(n))
            }
            other => Err(format!("unexpected command {}", other)),
        }
    }

    fn run_all(&mut self, cmds: Vec<Command>) -> Result<(), String> {
        for c in cmds {
            self.run(c)?;
        }
        Ok(())
    }

    fn doc(&self, key: &str) -> Option<Payload> {
        self.docs.get(key).map(|(content, uri, chunk_id, source)| {
            Payload::new(content, Metadata::new(uri, *chunk_id, source))
        })
    }

    fn create(&mut self, e: &RedisEngine) {
        let exists = self.run(e.index_probe()).is_ok();
        self.run_all(e.create_collection(exists)).unwrap();
    }

    fn add(&mut self, e: &RedisEngine, p: PointStruct) -> String {
        let exists = self.run(e.index_probe()).is_ok();
        let (cmds, (id, _)) = e.add_vector_and_metadata(p, exists);
        self.run_all(cmds).unwrap();
        id
    }

    fn get(&mut self, e: &RedisEngine, id: &str) -> Option<PointStruct> {
        let reply = self.run(e.vector_lookup(id)).unwrap();
        match read_vector_hash(hash_fields(reply)).unwrap() {
            None => None,
            Some((vector, reference)) => {
                Some(RedisEngine::get_vector(id, vector, self.doc(&reference)).unwrap())
            }
        }
    }

    fn info_count(&mut self, e: &RedisEngine) -> i64 {
        let exists = self.run(e.index_probe()).is_ok();
        let meta = self.docs.contains_key(&format!("metadata:{}:empty", e.collection_name()));
        let placeholder = matches!(self.run(e.placeholder_vector_probe()), Ok(Reply::Int(1)));
        let reply = if exists { Some(self.run(e.count_query()).unwrap()) } else { None };
        e.get_collection_info(exists, meta, placeholder, reply).document_count
    }
}

fn bits(v: &[f64]) -> Vec<u64> {
    v.iter().map(|x| x.to_bits()).collect()
}

#[test]
fn docs_collection_lifecycle() {
    let mut b = MemoryBackend::default();
    let e = RedisEngine::with_dimension("docs", 3);
    let p = PointStruct::new("a", bits(&[0.1, 0.2, 0.3]), Payload::new("hello", Metadata::new("", 0, "")));
    let vid = b.add(&e, p);
    assert_eq!(vid, "a");
    assert!(b.run(e.index_probe()).is_ok());
    let got = b.get(&e, "a").unwrap();
    let v: Vec<f64> = got.vector.iter().map(|x| f64::from_bits(*x)).collect();
    assert_eq!(v, vec![0.1, 0.2, 0.3]);
    assert_eq!(got.payload.content, "hello");
    assert_eq!(b.info_count(&e), 1);
    b.run_all(e.delete_vector_and_metadata("a")).unwrap();
    assert!(b.get(&e, "a").is_none());
    assert_eq!(b.info_count(&e), 0);
}

#[test]
fn creating_twice_changes_nothing() {
    let mut b = MemoryBackend::default();
    let e = RedisEngine::with_dimension("docs", 3);
    b.create(&e);
    let hashes = b.hashes.clone();
    let docs = b.docs.clone();
    b.create(&e);
    assert_eq!(b.hashes, hashes);
    assert_eq!(b.docs, docs);
    assert!(b.run(e.index_probe()).is_ok());
    assert_eq!(b.hashes["docs:empty"][0].1, vec![0u8; 24]);
}

#[test]
fn deleting_twice_succeeds() {
    let mut b = MemoryBackend::default();
    let e = RedisEngine::with_dimension("docs", 3);
    b.create(&e);
    let p = PointStruct::new("x", bits(&[1.0, 2.0, 3.0]), Payload::new("c", Metadata::new("u", 2, "s")));
    b.add(&e, p);
    let got = b.get(&e, "x").unwrap();
    assert_eq!(got.payload.metadata.uri, "u");
    assert_eq!(got.payload.metadata.chunk_id, 2);
    b.run_all(e.delete_vector_and_metadata("x")).unwrap();
    b.run_all(e.delete_vector_and_metadata("x")).unwrap();
    assert!(b.get(&e, "x").is_none());
}

#[test]
fn info_without_index_counts_nothing() {
    let mut b = MemoryBackend::default();
    let e = RedisEngine::new("none");
    assert_eq!(b.info_count(&e), 0);
    let info = e.get_collection_info(false, false, false, None);
    assert!(!info.index_exists);
    assert_eq!(info.collection_name, "none");
}

#[test]
fn dropping_collection_removes_its_records() {
    let mut b = MemoryBackend::default();
    let e = RedisEngine::with_dimension("docs", 3);
    b.create(&e);
    let p = PointStruct::new("a", bits(&[0.0, 0.0, 1.0]), Payload::new("c", Metadata::new("", 0, "")));
    b.add(&e, p);
    let drop = e.delete_collection();
    let (cleanup, outcome) = e.after_drop(b.run(drop).map(|_| ()));
    assert!(outcome.is_ok());
    b.run(cleanup.unwrap()).unwrap();
    assert!(!b.docs.contains_key("metadata:docs:empty"));
    assert!(b.get(&e, "a").is_none());
    assert!(b.run(e.index_probe()).is_err());
}
