//! Nearest-neighbour search: the query, and the reading of the backend's
//! flat reply into hits.
use crate::codec::{decoding, deserialize_vector, serialize_vector};
use crate::command::{Command, CommandView};
use crate::engine::Reply;
use crate::keys::{key_pattern, make_key_pattern};
use crate::text::{
    decimal, decimal_text, has_colon, join2, join3, lossy_text, after_first_colon, split_first_colon,
    text_eq, text_from_bytes_lossy,
};
use vstd::prelude::*;

verus! {

/// The number of results asked for when none is given.
pub const DEFAULT_COUNT: usize = 10;

/// The number of results asked for.
pub open spec fn result_count(count: Option<usize>) -> usize {
    match count {
        Some(k) => k,
        None => DEFAULT_COUNT,
    }
}

pub fn effective_count(count: Option<usize>) -> (r: usize)
    ensures
        r == result_count(count),
{
    match count {
        Some(k) => k,
        None => DEFAULT_COUNT,
    }
}

/// The filter of a query: records tagged with the namespace, or all.
pub open spec fn filter_text(namespace: Option<Seq<char>>) -> Seq<char> {
    match namespace {
        Some(ns) => "(@namespace:{"@ + ns + "})"@,
        None => "*"@,
    }
}

/// The query text: the filter combined with a k-nearest-neighbour clause
/// over the bound vector parameter `vec`, its score named `vector_score`.
pub open spec fn knn_text(namespace: Option<Seq<char>>, k: usize) -> Seq<char> {
    "("@ + filter_text(namespace) + ")=>[KNN "@ + decimal(k as nat) + " @vector $vec AS vector_score]"@
}

pub open spec fn opt_str_view(o: Option<&str>) -> Option<Seq<char>> {
    match o {
        Some(s) => Some(s@),
        None => None,
    }
}

/// The query text for `k` neighbours within the optional namespace.
pub fn knn_query(namespace: Option<&str>, k: usize) -> (r: String)
    ensures
        r@ == knn_text(opt_str_view(namespace), k),
{
    let filter = match namespace {
        Some(ns) => join3("(@namespace:{", ns, "})"),
        None => String::from_str("*"),
    };
    let k_text = decimal_text(k as u64);
    let head = join3("(", filter.as_str(), ")=>[KNN ");
    let r = join3(head.as_str(), k_text.as_str(), " @vector $vec AS vector_score]");
    assert(r@ =~= knn_text(opt_str_view(namespace), k));
    r
}

/// The search for the `k` records nearest to `vector` in `collection`,
/// ascending by score, with their vectors where asked for.
pub fn search_command(
    collection: &str,
    vector: &[u64],
    k: usize,
    include_vectors: bool,
    namespace: Option<&str>,
) -> (r: Command)
    requires
        vector@.len() * 8 <= usize::MAX,
    ensures
        r@ == (CommandView::KnnSearch {
            index: collection@,
            query: knn_text(opt_str_view(namespace), k),
            vector: crate::codec::encoding(vector@),
            include_vectors,
            count: k,
        }),
{
    Command::KnnSearch {
        index: String::from_str(collection),
        query: knn_query(namespace, k),
        vector: serialize_vector(vector),
        include_vectors,
        count: k,
    }
}

/// The enumeration of up to `k` keys of `collection`, used when search fails.
pub fn fallback_scan(collection: &str, k: usize) -> (r: Command)
    ensures
        r@ == (CommandView::ScanKeys { pattern: key_pattern(collection@), count: k }),
{
    Command::ScanKeys { pattern: make_key_pattern(collection), count: k }
}

/// The text of a reply element, where it is text.
pub open spec fn reply_text(r: Reply) -> Option<Seq<char>> {
    match r {
        Reply::Data(b) => Some(lossy_text(b@)),
        Reply::Status(s) => Some(s@),
        _ => None,
    }
}

/// The record id within a stored key: what follows the collection prefix
/// (the text up to the first `:`), or the whole key where it has no `:`.
pub open spec fn record_id(key: Seq<char>) -> Seq<char> {
    if has_colon(key) {
        after_first_colon(key)
    } else {
        key
    }
}

/// A score as reported, with the not-a-number sentinel read as zero.
pub open spec fn score_text(t: Seq<char>) -> Seq<char> {
    if t == "nan"@ {
        "0"@
    } else {
        t
    }
}

/// The score that a field value gives: zero where it is not text.
pub open spec fn value_score(v: Reply) -> Seq<char> {
    match reply_text(v) {
        Some(t) => score_text(t),
        None => "0"@,
    }
}

/// The score and vector read from the first `m` name/value pairs of a
/// hit's fields; a later field of a name overrides an earlier one.
pub open spec fn scan_fields(f: Seq<Reply>, m: nat, with_vectors: bool) -> (Seq<char>, Seq<u64>)
    decreases m,
{
    if m == 0 {
        ("0"@, Seq::empty())
    } else {
        let prev = scan_fields(f, (m - 1) as nat, with_vectors);
        let name = f[2 * (m - 1)];
        let value = f[2 * (m - 1) + 1];
        match reply_text(name) {
            Some(n) => if n == "vector_score"@ {
                (value_score(value), prev.1)
            } else if n == "vector"@ && with_vectors {
                match value {
                    Reply::Data(b) => (prev.0, decoding(b@)),
                    _ => prev,
                }
            } else {
                prev
            },
            None => prev,
        }
    }
}

/// A hit: record id, score text and vector.
pub type HitView = (Seq<char>, Seq<char>, Seq<u64>);

/// The hit of one key/fields pair, if the pair is well formed.
pub open spec fn pair_hit(key: Reply, fields: Reply, with_vectors: bool) -> Option<HitView> {
    match reply_text(key) {
        None => None,
        Some(k) => match fields {
            Reply::Bulk(f) => {
                let sv = scan_fields(f@, f@.len() / 2, with_vectors);
                Some((record_id(k), sv.0, sv.1))
            },
            _ => None,
        },
    }
}

/// The hits of the first `m` pairs after the leading total.
pub open spec fn search_hits(r: Seq<Reply>, m: nat, with_vectors: bool) -> Seq<HitView>
    decreases m,
{
    if m == 0 {
        Seq::empty()
    } else {
        let prev = search_hits(r, (m - 1) as nat, with_vectors);
        match pair_hit(r[2 * m - 1], r[2 * m as int], with_vectors) {
            Some(h) => prev.push(h),
            None => prev,
        }
    }
}

/// The number of complete key/fields pairs after the leading total.
pub open spec fn pair_count(len: nat) -> nat {
    if len == 0 {
        0
    } else {
        ((len - 1) / 2) as nat
    }
}

/// One hit of a search.
#[derive(Debug)]
pub struct SearchHit {
    pub id: String,
    /// The score as the backend reported it, `"0"` where it gave none or
    /// gave the not-a-number sentinel.
    pub score: String,
    pub vector: Vec<u64>,
}

pub open spec fn hit_view(h: SearchHit) -> HitView {
    (h.id@, h.score@, h.vector@)
}

pub open spec fn hits_view(h: Seq<SearchHit>) -> Seq<HitView> {
    h.map_values(|x: SearchHit| hit_view(x))
}

fn text_of_reply(r: &Reply) -> (t: Option<String>)
    ensures
        match (t, reply_text(*r)) {
            (Some(a), Some(b)) => a@ == b,
            (None, None) => true,
            _ => false,
        },
{
    match r {
        Reply::Data(b) => Some(text_from_bytes_lossy(b.as_slice())),
        Reply::Status(s) => Some(String::from_str(s.as_str())),
        _ => None,
    }
}

/// The record id within a stored key.
pub fn record_id_of(key: &str) -> (r: String)
    ensures
        r@ == record_id(key@),
{
    match split_first_colon(key) {
        Some((_, b)) => b,
        None => String::from_str(key),
    }
}

fn score_of_value(v: &Reply) -> (r: String)
    ensures
        r@ == value_score(*v),
{
    match text_of_reply(v) {
        Some(t) => if text_eq(t.as_str(), "nan") {
            String::from_str("0")
        } else {
            t
        },
        None => String::from_str("0"),
    }
}

fn read_fields(f: &Vec<Reply>, include_vectors: bool) -> (r: (String, Vec<u64>))
    ensures
        (r.0@, r.1@) == scan_fields(f@, f@.len() / 2, include_vectors),
{
    let n = f.len();
    let mut score = String::from_str("0");
    let mut vector: Vec<u64> = Vec::new();
    let mut m: usize = 0;
    while m < n / 2
        invariant
            n == f@.len(),
            m <= n / 2,
            (score@, vector@) == scan_fields(f@, m as nat, include_vectors),
        decreases n / 2 - m,
    {
        let j = 2 * m;
        match text_of_reply(&f[j]) {
            Some(name) => {
                if text_eq(name.as_str(), "vector_score") {
                    score = score_of_value(&f[j + 1]);
                } else if text_eq(name.as_str(), "vector") && include_vectors {
                    match &f[j + 1] {
                        Reply::Data(b) => {
                            vector = deserialize_vector(b.as_slice());
                        },
                        _ => {},
                    }
                }
            },
            None => {},
        }
        m = m + 1;
    }
    (score, vector)
}

/// Reads the hits of a search reply: a leading total, then pairs of a
/// document key and a flat list of field names and values. A pair whose key
/// is not text or whose fields are not a list is skipped.
pub fn parse_search_reply(reply: &Vec<Reply>, include_vectors: bool) -> (r: Vec<SearchHit>)
    ensures
        hits_view(r@) == search_hits(reply@, pair_count(reply@.len() as nat), include_vectors),
{
    let n = reply.len();
    let mut hits: Vec<SearchHit> = Vec::new();
    if n == 0 {
        assert(hits_view(hits@) =~= Seq::<HitView>::empty());
        return hits;
    }
    let pairs = (n - 1) / 2;
    let mut m: usize = 0;
    while m < pairs
        invariant
            n == reply@.len(),
            n > 0,
            pairs == (n - 1) / 2,
            m <= pairs,
            hits_view(hits@) == search_hits(reply@, m as nat, include_vectors),
        decreases pairs - m,
    {
        let i = 2 * m + 1;
        let ghost before = hits@;
        match text_of_reply(&reply[i]) {
            Some(key) => match &reply[i + 1] {
                Reply::Bulk(f) => {
                    let (score, vector) = read_fields(f, include_vectors);
                    let id = record_id_of(key.as_str());
                    hits.push(SearchHit { id, score, vector });
                    assert(hits_view(hits@) =~= hits_view(before).push(
                        hit_view(hits@[hits@.len() - 1]),
                    ));
                },
                _ => {},
            },
            None => {},
        }
        m = m + 1;
    }
    hits
}

/// The keys listed by a scan reply (a cursor, then the list of keys).
pub open spec fn scan_keys(reply: Reply) -> Seq<Reply> {
    match reply {
        Reply::Bulk(items) => if items@.len() >= 2 {
            match items@[1] {
                Reply::Bulk(keys) => keys@,
                _ => Seq::empty(),
            }
        } else {
            Seq::empty()
        },
        _ => Seq::empty(),
    }
}

/// The record ids of the first `m` listed keys that are text and hold a
/// collection prefix.
pub open spec fn scan_ids(keys: Seq<Reply>, m: nat) -> Seq<Seq<char>>
    decreases m,
{
    if m == 0 {
        Seq::empty()
    } else {
        let prev = scan_ids(keys, (m - 1) as nat);
        match reply_text(keys[m - 1]) {
            Some(k) => if has_colon(k) {
                prev.push(after_first_colon(k))
            } else {
                prev
            },
            None => prev,
        }
    }
}

pub open spec fn strings_view(v: Seq<String>) -> Seq<Seq<char>> {
    v.map_values(|s: String| s@)
}

/// The record ids that a scan reply lists, in its order.
pub fn parse_scan_reply(reply: &Reply) -> (r: Vec<String>)
    ensures
        strings_view(r@) == scan_ids(scan_keys(*reply), scan_keys(*reply).len()),
{
    let mut ids: Vec<String> = Vec::new();
    let empty: Vec<Reply> = Vec::new();
    let keys: &Vec<Reply> = match reply {
        Reply::Bulk(items) => if items.len() >= 2 {
            match &items[1] {
                Reply::Bulk(keys) => keys,
                _ => &empty,
            }
        } else {
            &empty
        },
        _ => &empty,
    };
    assert(keys@ == scan_keys(*reply));
    let n = keys.len();
    let mut m: usize = 0;
    while m < n
        invariant
            n == keys@.len(),
            m <= n,
            strings_view(ids@) == scan_ids(keys@, m as nat),
        decreases n - m,
    {
        let ghost before = ids@;
        match text_of_reply(&keys[m]) {
            Some(k) => match split_first_colon(k.as_str()) {
                Some((_, id)) => {
                    ids.push(id);
                    assert(strings_view(ids@) =~= strings_view(before).push(ids@[ids@.len() - 1]@));
                },
                None => {},
            },
            None => {},
        }
        m = m + 1;
    }
    ids
}

} // verus!
