//! The store driver: vector-level upsert, query and load over one
//! collection, built from the record store and the search.
use crate::command::{Command, CommandView};
use crate::engine::{is_add_plan, Reply};
use crate::keys::key_pattern;
use crate::config::RedisConfig;
use crate::error::VectorStoreError;
use crate::engine::RedisEngine;
use crate::models::{
    content_id, field_value, fields_view, find_field, get_uuid, set_field, set_field_value,
    FieldsView, MetaValue, Metadata, Payload, PointStruct,
};
use crate::search::{
    fallback_scan, hits_view, opt_str_view, pair_count, parse_scan_reply, parse_search_reply,
    result_count, scan_ids, scan_keys, search_command, search_hits, strings_view, HitView,
    SearchHit,
};
use crate::text::{parse_u64, parsed_u64, text_eq};
use vstd::prelude::*;

verus! {

/// A record as a search or a load returns it.
#[derive(Debug)]
pub struct Entry {
    pub id: String,
    /// The vector, where it was asked for; empty otherwise.
    pub vector: Vec<u64>,
    /// The score as reported by the search; `"0"` for loads and for the
    /// unranked fallback.
    pub score: String,
    pub meta: Payload,
}

/// An entry's id, vector, score and metadata.
pub type EntryView = (Seq<char>, Seq<u64>, Seq<char>, Payload);

pub open spec fn entry_view(e: Entry) -> EntryView {
    (e.id@, e.vector@, e.score@, e.meta)
}

pub open spec fn entries_view(e: Seq<Entry>) -> Seq<EntryView> {
    e.map_values(|x: Entry| entry_view(x))
}

impl Entry {
    pub fn new(id: &str, vector: Vec<u64>, score: &str, meta: Payload) -> (r: Self)
        ensures
            entry_view(r) == (id@, vector@, score@, meta),
    {
        Entry { id: String::from_str(id), vector, score: String::from_str(score), meta }
    }
}

/// At most the first `k` elements of `s`.
pub open spec fn first_k<A>(s: Seq<A>, k: nat) -> Seq<A> {
    if s.len() <= k {
        s
    } else {
        s.subrange(0, k as int)
    }
}

/// The entries of the first `m` hits whose records were found, in the hits'
/// order: the hit's id and score, the record's metadata, and, where vectors
/// are asked for, the hit's vector or else the record's.
pub open spec fn assembled(
    hits: Seq<HitView>,
    points: Seq<Option<PointStruct>>,
    with_vectors: bool,
    m: nat,
) -> Seq<EntryView>
    decreases m,
{
    if m == 0 {
        Seq::empty()
    } else {
        let prev = assembled(hits, points, with_vectors, (m - 1) as nat);
        match points[m - 1] {
            Some(p) => {
                let h = hits[m - 1];
                let v = if !with_vectors {
                    Seq::empty()
                } else if h.2.len() > 0 {
                    h.2
                } else {
                    p.vector@
                };
                prev.push((h.0, v, h.1, p.payload))
            },
            None => prev,
        }
    }
}

/// The unranked entries of the first `m` records that were found, in order.
pub open spec fn loaded(points: Seq<Option<PointStruct>>, m: nat) -> Seq<EntryView>
    decreases m,
{
    if m == 0 {
        Seq::empty()
    } else {
        let prev = loaded(points, (m - 1) as nat);
        match points[m - 1] {
            Some(p) => prev.push((p.id@, p.vector@, "0"@, p.payload)),
            None => prev,
        }
    }
}

/// Whether a field name is one of the required metadata fields.
pub open spec fn is_required_name(k: Seq<char>) -> bool {
    k == "uri"@ || k == "chunk_id"@ || k == "source"@
}

/// The fields of `f` that are not required fields, in order.
pub open spec fn optional_fields(f: FieldsView) -> FieldsView
    decreases f.len(),
{
    if f.len() == 0 {
        f
    } else {
        let p = optional_fields(f.drop_last());
        if is_required_name(f.last().0) {
            p
        } else {
            p.push(f.last())
        }
    }
}

/// The caller's metadata fields: those of an object, none otherwise.
pub open spec fn given_fields(meta: Option<MetaValue>) -> FieldsView {
    match meta {
        Some(MetaValue::Object(f)) => fields_view(f@),
        _ => Seq::empty(),
    }
}

/// A text field's value, or empty where it is absent or not text.
pub open spec fn text_field(f: FieldsView, k: Seq<char>) -> Seq<char> {
    match field_value(f, k) {
        Some(MetaValue::Text(s)) => s@,
        _ => Seq::empty(),
    }
}

/// The chunk id field's value, or 0 where it is absent or not an unsigned
/// integer.
pub open spec fn chunk_field(f: FieldsView) -> usize {
    match field_value(f, "chunk_id"@) {
        Some(MetaValue::Number(t)) => match parsed_u64(t@) {
            Some(v) => v as usize,
            None => 0,
        },
        _ => 0,
    }
}

/// Whether `m` is the metadata that upserting with the caller's fields `f`
/// and the namespace gives: the required fields taken from `f` with their
/// defaults (`""`, `0`, `""`), the other fields of `f` in order, and the
/// namespace tag set where one is given.
pub open spec fn is_merged_metadata(m: Metadata, f: FieldsView, namespace: Option<Seq<char>>) -> bool {
    &&& m.uri@ == text_field(f, "uri"@)
    &&& m.chunk_id == chunk_field(f)
    &&& m.source@ == text_field(f, "source"@)
    &&& match namespace {
        None => fields_view(m.extra@) == optional_fields(f),
        Some(ns) => exists|s: String|
            s@ == ns && fields_view(m.extra@) == set_field(
                optional_fields(f),
                "namespace"@,
                MetaValue::Text(s),
            ),
    }
}

fn text_value_of(fields: &Vec<(String, MetaValue)>, k: &str) -> (r: String)
    ensures
        r@ == text_field(fields_view(fields@), k@),
{
    let i = find_field(fields, k);
    if i < fields.len() {
        match &fields[i].1 {
            MetaValue::Text(s) => s.clone(),
            _ => String::new(),
        }
    } else {
        String::new()
    }
}

fn chunk_value_of(fields: &Vec<(String, MetaValue)>) -> (r: usize)
    ensures
        r == chunk_field(fields_view(fields@)),
{
    let i = find_field(fields, "chunk_id");
    if i < fields.len() {
        match &fields[i].1 {
            MetaValue::Number(t) => match parse_u64(t.as_str()) {
                Some(v) => v as usize,
                None => 0,
            },
            _ => 0,
        }
    } else {
        0
    }
}

fn is_required(k: &str) -> (r: bool)
    ensures
        r == is_required_name(k@),
{
    text_eq(k, "uri") || text_eq(k, "chunk_id") || text_eq(k, "source")
}

/// The fields that are not required fields, in order.
fn take_optional(fields: Vec<(String, MetaValue)>) -> (r: Vec<(String, MetaValue)>)
    ensures
        fields_view(r@) == optional_fields(fields_view(fields@)),
{
    let ghost orig = fields_view(fields@);
    let mut rest = fields;
    let mut out: Vec<(String, MetaValue)> = Vec::new();
    let ghost mut k: int = 0;
    while rest.len() > 0
        invariant
            0 <= k <= orig.len(),
            rest@.len() == orig.len() - k,
            fields_view(rest@) == orig.subrange(k, orig.len() as int),
            fields_view(out@) == optional_fields(orig.subrange(0, k)),
        decreases rest@.len(),
    {
        let ghost before = out@;
        let ghost old_rest = rest@;
        proof {
            assert(fields_view(old_rest)[0] == orig[k]);
        }
        let p = rest.remove(0);
        proof {
            assert(p == old_rest[0]);
            assert forall|i: int| 0 <= i < rest@.len() implies #[trigger] fields_view(rest@)[i]
                == orig.subrange(k + 1, orig.len() as int)[i] by {
                assert(rest@[i] == old_rest[i + 1]);
                assert(fields_view(old_rest)[i + 1] == orig[k + 1 + i]);
            }
            assert(fields_view(rest@) =~= orig.subrange(k + 1, orig.len() as int));
            assert((p.0@, p.1) == orig[k]);
            assert(orig.subrange(0, k + 1).drop_last() =~= orig.subrange(0, k));
        }
        if !is_required(p.0.as_str()) {
            out.push(p);
            assert(fields_view(out@) =~= fields_view(before).push(orig[k]));
        }
        proof {
            k = k + 1;
        }
    }
    assert(orig.subrange(0, k) =~= orig);
    out
}

/// What a query does once the search has answered: look up the records of
/// the hits, or, where the search failed, enumerate keys instead.
#[derive(Debug)]
pub enum SearchOutcome {
    Hits(Vec<SearchHit>),
    Fallback(Command),
}

/// The store driver of one collection.
#[derive(Debug)]
pub struct RedisStackVectorStoreDriver {
    pub redis_config: RedisConfig,
    pub collection_name: String,
    /// The payload key under which content is kept.
    pub content_payload_key: String,
}

impl RedisStackVectorStoreDriver {
    /// A driver of `collection_name`; the content key defaults to `data`.
    pub fn new(redis_config: RedisConfig, collection_name: &str, content_payload_key: Option<&str>) -> (r:
        Self)
        ensures
            r.redis_config == redis_config,
            r.collection_name@ == collection_name@,
            r.content_payload_key@ == (match content_payload_key {
                Some(k) => k@,
                None => "data"@,
            }),
    {
        let key = match content_payload_key {
            Some(k) => String::from_str(k),
            None => String::from_str("data"),
        };
        RedisStackVectorStoreDriver {
            redis_config,
            collection_name: String::from_str(collection_name),
            content_payload_key: key,
        }
    }

    /// The record store of the driver's collection.
    pub fn get_engine(&self) -> (r: RedisEngine)
        ensures
            r.wf(),
            r.name() == self.collection_name@,
            r.dim() == crate::engine::DEFAULT_DIMENSION,
    {
        RedisEngine::new(self.collection_name.as_str())
    }

    /// The commands that initialize the collection, given what the index
    /// probe said; see `RedisEngine::create_collection`.
    pub fn initialize(&self, index_exists: bool) -> (r: Vec<Command>)
        ensures
            crate::engine::is_create_plan(
                crate::command::commands_view(r@),
                self.collection_name@,
                crate::engine::DEFAULT_DIMENSION,
                index_exists,
            ),
    {
        self.get_engine().create_collection(index_exists)
    }

    /// The commands that delete record `vector_id`.
    pub fn delete_vector(&self, vector_id: &str) -> (r: Vec<Command>)
        ensures
            crate::command::commands_view(r@) == crate::engine::delete_plan(
                self.collection_name@,
                vector_id@,
            ),
    {
        self.get_engine().delete_vector_and_metadata(vector_id)
    }

    /// The record that upserting `vector` stores: the given id, or else the
    /// id derived from the vector's content; the caller's metadata merged
    /// with the defaults and the namespace; the content, empty by default.
    pub fn prepare_point(
        &self,
        vector: Vec<u64>,
        vector_id: Option<&str>,
        namespace: Option<&str>,
        meta: Option<MetaValue>,
        content: Option<&str>,
    ) -> (r: PointStruct)
        ensures
            r.id@ == (match vector_id {
                Some(id) => id@,
                None => content_id(vector@),
            }),
            r.vector == vector,
            r.payload.content@ == (match content {
                Some(c) => c@,
                None => Seq::<char>::empty(),
            }),
            is_merged_metadata(r.payload.metadata, given_fields(meta), opt_str_view(namespace)),
    {
        let ghost f0 = given_fields(meta);
        let fields: Vec<(String, MetaValue)> = match meta {
            Some(MetaValue::Object(f)) => f,
            _ => Vec::new(),
        };
        assert(fields_view(fields@) =~= f0);
        let uri = text_value_of(&fields, "uri");
        let chunk_id = chunk_value_of(&fields);
        let source = text_value_of(&fields, "source");
        let mut extra = take_optional(fields);
        match namespace {
            Some(ns) => {
                let tag = String::from_str(ns);
                let ghost s = tag;
                set_field_value(&mut extra, "namespace", MetaValue::Text(tag));
                assert(s@ == ns@ && fields_view(extra@) == set_field(
                    optional_fields(f0),
                    "namespace"@,
                    MetaValue::Text(s),
                ));
            },
            None => {},
        }
        let metadata = Metadata { uri, chunk_id, source, extra };
        let content_text = match content {
            Some(c) => String::from_str(c),
            None => String::new(),
        };
        let payload = Payload { content: content_text, metadata };
        let id = match vector_id {
            Some(id) => String::from_str(id),
            None => get_uuid(vector.as_slice()),
        };
        PointStruct { id, vector, payload }
    }

    /// Upserts `vector`: the id it is stored under, and the commands that
    /// store it, the collection's creation first as the index probe's answer
    /// asks.
    pub fn upsert_vector(
        &self,
        vector: Vec<u64>,
        vector_id: Option<&str>,
        namespace: Option<&str>,
        meta: Option<MetaValue>,
        content: Option<&str>,
        index_exists: bool,
    ) -> (r: (String, Vec<Command>))
        requires
            vector@.len() * 8 <= usize::MAX,
        ensures
            r.0@ == (match vector_id {
                Some(id) => id@,
                None => content_id(vector@),
            }),
            exists|p: PointStruct|
                p.id@ == r.0@ && p.vector == vector && is_merged_metadata(
                    p.payload.metadata,
                    given_fields(meta),
                    opt_str_view(namespace),
                ) && p.payload.content@ == (match content {
                    Some(c) => c@,
                    None => Seq::<char>::empty(),
                }) && is_add_plan(
                    crate::command::commands_view(r.1@),
                    self.collection_name@,
                    crate::engine::DEFAULT_DIMENSION,
                    index_exists,
                    p.id@,
                    p.vector@,
                    p.payload,
                ),
    {
        let point = self.prepare_point(vector, vector_id, namespace, meta, content);
        let ghost p = point;
        let (cmds, (id, _)) = self.get_engine().add_vector_and_metadata(point, index_exists);
        (id, cmds)
    }

    /// The search for the records nearest to `query_vector`.
    pub fn query_command(
        &self,
        query_vector: &[u64],
        count: Option<usize>,
        include_vectors: bool,
        namespace: Option<&str>,
    ) -> (r: Command)
        requires
            query_vector@.len() * 8 <= usize::MAX,
        ensures
            r@ == (crate::command::CommandView::KnnSearch {
                index: self.collection_name@,
                query: crate::search::knn_text(opt_str_view(namespace), result_count(count)),
                vector: crate::codec::encoding(query_vector@),
                include_vectors,
                count: result_count(count),
            }),
    {
        let k = crate::search::effective_count(count);
        search_command(self.collection_name.as_str(), query_vector, k, include_vectors, namespace)
    }

    /// The next step of a query from the search's result: its hits where it
    /// answered, and otherwise the key scan of the unranked fallback. A failed
    /// search never fails the query.
    pub fn after_search(
        &self,
        search_result: Result<Vec<Reply>, String>,
        include_vectors: bool,
        count: Option<usize>,
    ) -> (r: SearchOutcome)
        ensures
            match search_result {
                Ok(reply) => r matches SearchOutcome::Hits(h) && hits_view(h@) == search_hits(
                    reply@,
                    pair_count(reply@.len() as nat),
                    include_vectors,
                ),
                Err(_) => r matches SearchOutcome::Fallback(c) && c@ == (CommandView::ScanKeys {
                    pattern: key_pattern(self.collection_name@),
                    count: result_count(count),
                }),
            },
    {
        match search_result {
            Ok(reply) => SearchOutcome::Hits(parse_search_reply(&reply, include_vectors)),
            Err(_) => SearchOutcome::Fallback(
                fallback_scan(self.collection_name.as_str(), crate::search::effective_count(count)),
            ),
        }
    }

    /// The record ids of the fallback from the key scan's result: those the
    /// scan lists where it answered; where the scan itself failed, the query
    /// fails with the backend's error.
    pub fn after_scan(scan_result: Result<Reply, String>) -> (r: Result<Vec<String>, VectorStoreError>)
        ensures
            match scan_result {
                Ok(reply) => r matches Ok(ids) && strings_view(ids@) == scan_ids(
                    scan_keys(reply),
                    scan_keys(reply).len(),
                ),
                Err(m) => r == Err::<Vec<String>, VectorStoreError>(VectorStoreError::RedisError(m)),
            },
    {
        match scan_result {
            Ok(reply) => Ok(parse_scan_reply(&reply)),
            Err(m) => Err(VectorStoreError::RedisError(m)),
        }
    }

    /// The query's entries from the search hits and the records looked up
    /// for them (`points[i]` for `hits[i]`, `None` where the lookup failed):
    /// the hits whose records were found, in the order of the hits, at most
    /// `count` of them.
    pub fn query_entries(
        hits: Vec<SearchHit>,
        points: Vec<Option<PointStruct>>,
        include_vectors: bool,
        count: Option<usize>,
    ) -> (r: Vec<Entry>)
        requires
            hits@.len() == points@.len(),
        ensures
            entries_view(r@) == first_k(
                assembled(hits_view(hits@), points@, include_vectors, hits@.len() as nat),
                result_count(count) as nat,
            ),
    {
        let k = crate::search::effective_count(count);
        let ghost hv = hits_view(hits@);
        let ghost pv = points@;
        let n = hits.len();
        let mut hs = hits;
        let mut ps = points;
        let mut out: Vec<Entry> = Vec::new();
        let mut m: usize = 0;
        while m < n
            invariant
                n == hv.len(),
                n == pv.len(),
                m <= n,
                hs@.len() == n - m,
                ps@.len() == n - m,
                hits_view(hs@) == hv.subrange(m as int, n as int),
                ps@ == pv.subrange(m as int, n as int),
                entries_view(out@) == first_k(assembled(hv, pv, include_vectors, m as nat), k as nat),
            decreases n - m,
        {
            let ghost before = assembled(hv, pv, include_vectors, m as nat);
            let ghost out_before = entries_view(out@);
            let ghost old_hs = hs@;
            proof {
                assert(hits_view(old_hs)[0] == hv[m as int]);
            }
            let h = hs.remove(0);
            let p = ps.remove(0);
            proof {
                assert(h == old_hs[0]);
                assert forall|i: int| 0 <= i < hs@.len() implies #[trigger] hits_view(hs@)[i]
                    == hv.subrange(m + 1, n as int)[i] by {
                    assert(hs@[i] == old_hs[i + 1]);
                    assert(hits_view(old_hs)[i + 1] == hv[m + 1 + i]);
                }
                assert(hits_view(hs@) =~= hv.subrange(m + 1, n as int));
                assert(ps@ =~= pv.subrange(m + 1, n as int));
                assert(hit_view_eq(h, hv[m as int]));
                assert(p == pv[m as int]);
            }
            match p {
                Some(point) => {
                    if out.len() < k {
                        let v = if !include_vectors {
                            Vec::new()
                        } else if h.vector.len() > 0 {
                            h.vector
                        } else {
                            point.vector
                        };
                        out.push(Entry { id: h.id, vector: v, score: h.score, meta: point.payload });
                        assert(entries_view(out@) =~= out_before.push(
                            entry_view(out@[out@.len() - 1]),
                        ));
                    } else {
                        assert(first_k(assembled(hv, pv, include_vectors, (m + 1) as nat), k as nat)
                            =~= out_before);
                    }
                },
                None => {},
            }
            m = m + 1;
        }
        out
    }

    /// A loaded record as an entry, unranked.
    pub fn load_entry(point: Option<PointStruct>) -> (r: Option<Entry>)
        ensures
            match (point, r) {
                (None, None) => true,
                (Some(p), Some(e)) => entry_view(e) == (p.id@, p.vector@, "0"@, p.payload),
                _ => false,
            },
    {
        match point {
            None => None,
            Some(p) => Some(Entry { id: p.id, vector: p.vector, score: String::from_str("0"), meta: p.payload }),
        }
    }

    /// The entries of the records that were found, in order, unranked;
    /// failed or empty lookups are left out.
    pub fn load_entries(points: Vec<Option<PointStruct>>) -> (r: Vec<Entry>)
        ensures
            entries_view(r@) == loaded(points@, points@.len() as nat),
    {
        let ghost pv = points@;
        let n = points.len();
        let r = Self::loaded_prefix(points, n);
        assert(first_k(loaded(pv, n as nat), n as nat) == loaded(pv, n as nat)) by {
            lemma_loaded_len(pv, n as nat);
        }
        r
    }

    /// The entries of the fallback path: the first `count` records that the
    /// key scan found, each with score zero.
    pub fn fallback_entries(points: Vec<Option<PointStruct>>, count: Option<usize>) -> (r: Vec<Entry>)
        ensures
            entries_view(r@) == first_k(loaded(points@, points@.len() as nat), result_count(count) as nat),
    {
        let k = crate::search::effective_count(count);
        Self::loaded_prefix(points, k)
    }

    fn loaded_prefix(points: Vec<Option<PointStruct>>, k: usize) -> (r: Vec<Entry>)
        ensures
            entries_view(r@) == first_k(loaded(points@, points@.len() as nat), k as nat),
    {
        let ghost pv = points@;
        let n = points.len();
        let mut ps = points;
        let mut out: Vec<Entry> = Vec::new();
        let mut m: usize = 0;
        while m < n
            invariant
                n == pv.len(),
                m <= n,
                ps@.len() == n - m,
                ps@ == pv.subrange(m as int, n as int),
                entries_view(out@) == first_k(loaded(pv, m as nat), k as nat),
            decreases n - m,
        {
            let ghost out_before = entries_view(out@);
            let p = ps.remove(0);
            proof {
                assert(ps@ =~= pv.subrange(m + 1, n as int));
                assert(p == pv[m as int]);
            }
            match p {
                Some(point) => {
                    if out.len() < k {
                        out.push(Entry { id: point.id, vector: point.vector, score: String::from_str("0"), meta: point.payload });
                        assert(entries_view(out@) =~= out_before.push(
                            entry_view(out@[out@.len() - 1]),
                        ));
                    } else {
                        assert(first_k(loaded(pv, (m + 1) as nat), k as nat) =~= out_before);
                    }
                },
                None => {},
            }
            m = m + 1;
        }
        out
    }
}

pub open spec fn hit_view_eq(h: SearchHit, v: HitView) -> bool {
    crate::search::hit_view(h) == v
}

proof fn lemma_loaded_len(points: Seq<Option<PointStruct>>, m: nat)
    requires
        m <= points.len(),
    ensures
        loaded(points, m).len() <= m,
    decreases m,
{
    if m > 0 {
        lemma_loaded_len(points, (m - 1) as nat);
    }
}

/// The fallback path returns at most `count` entries, and every one of
/// them has score zero: its results are unranked.
pub proof fn lemma_fallback_unranked(points: Seq<Option<PointStruct>>, count: Option<usize>)
    ensures
        first_k(loaded(points, points.len()), result_count(count) as nat).len() <= result_count(count),
        forall|i: int|
            0 <= i < first_k(loaded(points, points.len()), result_count(count) as nat).len() ==> (
            #[trigger] first_k(loaded(points, points.len()), result_count(count) as nat)[i]).2
                == "0"@,
{
    lemma_loaded_scores(points, points.len());
}

proof fn lemma_loaded_scores(points: Seq<Option<PointStruct>>, m: nat)
    requires
        m <= points.len(),
    ensures
        forall|i: int| 0 <= i < loaded(points, m).len() ==> (#[trigger] loaded(points, m)[i]).2 == "0"@,
    decreases m,
{
    if m > 0 {
        lemma_loaded_scores(points, (m - 1) as nat);
        let prev = loaded(points, (m - 1) as nat);
        assert forall|i: int| 0 <= i < loaded(points, m).len() implies (#[trigger] loaded(
            points,
            m,
        )[i]).2 == "0"@ by {
            if i < prev.len() {
                assert(prev[i].2 == "0"@);
            }
        }
    }
}

/// Whether entry `i` of `e` carries the id and score of hit `idx[i]`, with
/// the positions `idx` strictly increasing: the entries follow the hits'
/// order.
pub open spec fn follows_hits(e: Seq<EntryView>, hits: Seq<HitView>, idx: Seq<int>) -> bool {
    &&& idx.len() == e.len()
    &&& forall|i: int|
        0 <= i < idx.len() ==> 0 <= #[trigger] idx[i] < hits.len() && e[i].0 == hits[idx[i]].0
            && e[i].2 == hits[idx[i]].1
    &&& forall|i: int, j: int| 0 <= i < j < idx.len() ==> idx[i] < idx[j]
}

proof fn lemma_assembled_follows(
    hits: Seq<HitView>,
    points: Seq<Option<PointStruct>>,
    with_vectors: bool,
    m: nat,
) -> (idx: Seq<int>)
    requires
        m <= hits.len(),
        m <= points.len(),
    ensures
        follows_hits(assembled(hits, points, with_vectors, m), hits, idx),
        forall|i: int| 0 <= i < idx.len() ==> #[trigger] idx[i] < m,
    decreases m,
{
    if m == 0 {
        Seq::empty()
    } else {
        let prev = lemma_assembled_follows(hits, points, with_vectors, (m - 1) as nat);
        match points[m - 1] {
            Some(p) => {
                let idx = prev.push(m - 1);
                let e = assembled(hits, points, with_vectors, m);
                let pe = assembled(hits, points, with_vectors, (m - 1) as nat);
                assert forall|i: int| 0 <= i < idx.len() implies 0 <= #[trigger] idx[i]
                    < hits.len() && e[i].0 == hits[idx[i]].0 && e[i].2 == hits[idx[i]].1 by {
                    if i < prev.len() {
                        assert(idx[i] == prev[i]);
                        assert(e[i] == pe[i]);
                    }
                }
                assert forall|i: int, j: int| 0 <= i < j < idx.len() implies idx[i] < idx[j] by {
                    if j < prev.len() {
                        assert(idx[i] == prev[i]);
                        assert(idx[j] == prev[j]);
                    } else {
                        assert(idx[i] == prev[i]);
                        assert(prev[i] < m - 1);
                    }
                }
                assert forall|i: int| 0 <= i < idx.len() implies #[trigger] idx[i] < m by {
                    if i < prev.len() {
                        assert(idx[i] == prev[i]);
                    }
                }
                idx
            },
            None => prev,
        }
    }
}

/// The entries of a query follow the order of the search's hits, which the
/// backend sorts ascending by score, and there are at most `count` of them.
pub proof fn lemma_query_entries_ordered(
    hits: Seq<HitView>,
    points: Seq<Option<PointStruct>>,
    with_vectors: bool,
    count: Option<usize>,
)
    requires
        hits.len() == points.len(),
    ensures
        first_k(assembled(hits, points, with_vectors, hits.len()), result_count(count) as nat).len()
            <= result_count(count),
        exists|idx: Seq<int>|
            follows_hits(
                first_k(assembled(hits, points, with_vectors, hits.len()), result_count(count) as nat),
                hits,
                idx,
            ),
{
    let k = result_count(count) as nat;
    let e = assembled(hits, points, with_vectors, hits.len());
    let idx = lemma_assembled_follows(hits, points, with_vectors, hits.len());
    if e.len() <= k {
        assert(follows_hits(first_k(e, k), hits, idx));
    } else {
        let t = idx.subrange(0, k as int);
        let f = first_k(e, k);
        assert forall|i: int| 0 <= i < t.len() implies 0 <= #[trigger] t[i] < hits.len() && f[i].0
            == hits[t[i]].0 && f[i].2 == hits[t[i]].1 by {
            assert(t[i] == idx[i]);
            assert(f[i] == e[i]);
        }
        assert forall|i: int, j: int| 0 <= i < j < t.len() implies t[i] < t[j] by {
            assert(t[i] == idx[i]);
            assert(t[j] == idx[j]);
        }
        assert(follows_hits(f, hits, t));
    }
}

/// Two vectors with identical bytes get the same id when stored without
/// one: the id depends on the vector's content alone.
pub proof fn lemma_content_id_deterministic(v1: Seq<u64>, v2: Seq<u64>)
    requires
        crate::codec::encoding(v1) == crate::codec::encoding(v2),
    ensures
        v1 == v2,
        content_id(v1) == content_id(v2),
{
    crate::codec::lemma_round_trip(v1);
    crate::codec::lemma_round_trip(v2);
}

/// The driver of `collection_name` with the default content key.
pub fn get_redis_vector_store_driver(redis_config: RedisConfig, collection_name: &str) -> (r:
    RedisStackVectorStoreDriver)
    ensures
        r.redis_config == redis_config,
        r.collection_name@ == collection_name@,
        r.content_payload_key@ == "data"@,
{
    RedisStackVectorStoreDriver::new(redis_config, collection_name, None)
}

} // verus!
