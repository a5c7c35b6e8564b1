//! Records: metadata, payload and point.
use crate::text::{decimal, decimal_text, text_eq};
use uuid::Uuid;
use vstd::prelude::*;

verus! {

/// A JSON-like value of a metadata field. A number is held as its decimal
/// text, so that integers and fractions alike pass through unchanged.
#[derive(Debug)]
pub enum MetaValue {
    Null,
    Bool(bool),
    Number(String),
    Text(String),
    List(Vec<MetaValue>),
    Object(Vec<(String, MetaValue)>),
}

/// An ordered mapping of field names to values, seen with the names as text.
pub type FieldsView = Seq<(Seq<char>, MetaValue)>;

/// The view of a list of fields.
pub open spec fn fields_view(f: Seq<(String, MetaValue)>) -> FieldsView {
    f.map_values(|p: (String, MetaValue)| (p.0@, p.1))
}

/// The position of the first field named `k`, or `f.len()` when none is.
pub open spec fn field_index<V>(f: Seq<(Seq<char>, V)>, k: Seq<char>) -> int
    decreases f.len(),
{
    if f.len() == 0 {
        0
    } else if field_index(f.drop_last(), k) < f.len() - 1 {
        field_index(f.drop_last(), k)
    } else if f.last().0 == k {
        f.len() - 1
    } else {
        f.len() as int
    }
}

/// The value of the field named `k`, if there is one.
pub open spec fn field_value(f: FieldsView, k: Seq<char>) -> Option<MetaValue> {
    let i = field_index(f, k);
    if i < f.len() {
        Some(f[i].1)
    } else {
        None
    }
}

/// `f` with the field named `k` set to `v`: replaced in place where it is,
/// appended otherwise.
pub open spec fn set_field(f: FieldsView, k: Seq<char>, v: MetaValue) -> FieldsView {
    let i = field_index(f, k);
    if i < f.len() {
        f.update(i, (k, v))
    } else {
        f.push((k, v))
    }
}

pub proof fn lemma_field_index<V>(f: Seq<(Seq<char>, V)>, k: Seq<char>)
    ensures
        0 <= field_index(f, k) <= f.len(),
        field_index(f, k) < f.len() ==> f[field_index(f, k)].0 == k,
        forall|j: int| 0 <= j < field_index(f, k) ==> #[trigger] f[j].0 != k,
    decreases f.len(),
{
    if f.len() > 0 {
        lemma_field_index(f.drop_last(), k);
        let g = f.drop_last();
        assert forall|j: int| 0 <= j < field_index(f, k) implies #[trigger] f[j].0 != k by {
            if j < g.len() {
                assert(f[j] == g[j]);
            }
        }
    }
}

/// The position of the first field named `k`.
pub fn find_field(fields: &Vec<(String, MetaValue)>, k: &str) -> (r: usize)
    ensures
        r == field_index(fields_view(fields@), k@),
{
    let ghost f = fields_view(fields@);
    let n = fields.len();
    let mut i: usize = 0;
    proof {
        lemma_field_index(f, k@);
    }
    while i < n
        invariant
            n == fields@.len(),
            f == fields_view(fields@),
            0 <= i <= n,
            forall|j: int| 0 <= j < i ==> #[trigger] f[j].0 != k@,
            0 <= field_index(f, k@) <= f.len(),
            field_index(f, k@) < f.len() ==> f[field_index(f, k@)].0 == k@,
            forall|j: int| 0 <= j < field_index(f, k@) ==> #[trigger] f[j].0 != k@,
        decreases n - i,
    {
        if text_eq(fields[i].0.as_str(), k) {
            assert(f[i as int].0 == k@);
            return i;
        }
        assert(f[i as int].0 != k@);
        i = i + 1;
    }
    i
}

/// Sets the field named `k` to `v`, in place where it is, at the end
/// otherwise.
pub fn set_field_value(fields: &mut Vec<(String, MetaValue)>, k: &str, v: MetaValue)
    ensures
        fields_view(final(fields)@) == set_field(fields_view(old(fields)@), k@, v),
{
    let i = find_field(fields, k);
    if i < fields.len() {
        fields.set(i, (String::from_str(k), v));
        assert(fields_view(fields@) =~= set_field(fields_view(old(fields)@), k@, v));
    } else {
        fields.push((String::from_str(k), v));
        assert(fields_view(fields@) =~= set_field(fields_view(old(fields)@), k@, v));
    }
}

/// The required fields of a record's metadata and an ordered mapping of
/// further fields.
#[derive(Debug)]
pub struct Metadata {
    pub uri: String,
    pub chunk_id: usize,
    pub source: String,
    pub extra: Vec<(String, MetaValue)>,
}

impl Metadata {
    /// Metadata with the required fields and no further ones.
    pub fn new(uri: &str, chunk_id: usize, source: &str) -> (r: Self)
        ensures
            r.uri@ == uri@,
            r.chunk_id == chunk_id,
            r.source@ == source@,
            r.extra@.len() == 0,
    {
        Metadata {
            uri: String::from_str(uri),
            chunk_id,
            source: String::from_str(source),
            extra: Vec::new(),
        }
    }

    /// Sets the further field `key` to `value`.
    pub fn with_extra(self, key: &str, value: MetaValue) -> (r: Self)
        ensures
            r.uri == self.uri,
            r.chunk_id == self.chunk_id,
            r.source == self.source,
            fields_view(r.extra@) == set_field(fields_view(self.extra@), key@, value),
    {
        let mut m = self;
        set_field_value(&mut m.extra, key, value);
        m
    }

    /// Sets the URI.
    pub fn with_uri(self, uri: &str) -> (r: Self)
        ensures
            r.uri@ == uri@,
            r.chunk_id == self.chunk_id,
            r.source == self.source,
            r.extra == self.extra,
    {
        let mut m = self;
        m.uri = String::from_str(uri);
        m
    }

    /// Sets the chunk id.
    pub fn with_chunk_id(self, chunk_id: usize) -> (r: Self)
        ensures
            r.uri == self.uri,
            r.chunk_id == chunk_id,
            r.source == self.source,
            r.extra == self.extra,
    {
        let mut m = self;
        m.chunk_id = chunk_id;
        m
    }

    /// Sets the source.
    pub fn with_source(self, source: &str) -> (r: Self)
        ensures
            r.uri == self.uri,
            r.chunk_id == self.chunk_id,
            r.source@ == source@,
            r.extra == self.extra,
    {
        let mut m = self;
        m.source = String::from_str(source);
        m
    }
}

/// The content of a record and its metadata: the document stored beside
/// the vector.
#[derive(Debug)]
pub struct Payload {
    pub content: String,
    pub metadata: Metadata,
}

impl Payload {
    /// A payload of the given content and metadata.
    pub fn new(content: &str, metadata: Metadata) -> (r: Self)
        ensures
            r.content@ == content@,
            r.metadata == metadata,
    {
        Payload { content: String::from_str(content), metadata }
    }

    /// Sets the content.
    pub fn with_content(self, content: &str) -> (r: Self)
        ensures
            r.content@ == content@,
            r.metadata == self.metadata,
    {
        let mut p = self;
        p.content = String::from_str(content);
        p
    }

    /// Sets the metadata.
    pub fn with_metadata(self, metadata: Metadata) -> (r: Self)
        ensures
            r.content == self.content,
            r.metadata == metadata,
    {
        let mut p = self;
        p.metadata = metadata;
        p
    }
}

/// A record: its id, its vector (each element the bit pattern of a 64-bit
/// float) and its payload.
#[derive(Debug)]
pub struct PointStruct {
    pub id: String,
    pub vector: Vec<u64>,
    pub payload: Payload,
}

/// The elements of `v` in decimal, separated by `", "`.
pub open spec fn items_text(v: Seq<u64>) -> Seq<char>
    decreases v.len(),
{
    if v.len() == 0 {
        seq![]
    } else if v.len() == 1 {
        decimal(v[0] as nat)
    } else {
        items_text(v.drop_last()) + ", "@ + decimal(v.last() as nat)
    }
}

/// The textual form of a vector: its elements in brackets.
pub open spec fn vector_text(v: Seq<u64>) -> Seq<char> {
    "["@ + items_text(v) + "]"@
}

/// The hyphenated text of the name-based (SHA-1, version 5) UUID of `name`
/// in the DNS namespace.
pub uninterp spec fn uuid_v5_dns(name: Seq<char>) -> Seq<char>;

/// The id given to a vector stored without one.
pub open spec fn content_id(v: Seq<u64>) -> Seq<char> {
    uuid_v5_dns(vector_text(v))
}

/// The textual form of a vector: its elements in decimal, separated by
/// `", "`, in brackets.
pub fn format_vector(v: &[u64]) -> (r: String)
    ensures
        r@ == vector_text(v@),
{
    let mut s = String::from_str("[");
    let n = v.len();
    for i in 0..n
        invariant
            n == v@.len(),
            s@ == "["@ + items_text(v@.subrange(0, i as int)),
    {
        let ghost before = s@;
        let d = decimal_text(v[i]);
        if i > 0 {
            s.append(", ");
        }
        s.append(d.as_str());
        proof {
            let w = v@.subrange(0, i + 1);
            assert(w.drop_last() =~= v@.subrange(0, i as int));
            if i == 0 {
                assert(items_text(v@.subrange(0, 0)) =~= Seq::<char>::empty());
                assert(s@ =~= "["@ + items_text(w));
            } else {
                assert(s@ =~= "["@ + items_text(w));
            }
        }
    }
    assert(v@.subrange(0, n as int) =~= v@);
    s.append("]");
    s
}

/// Relies on uuid's `Uuid::new_v5` in `Uuid::NAMESPACE_DNS`, of the UTF-8
/// bytes of `name`, and its hyphenated `to_string`: the result depends on
/// the name alone.
#[verifier::external_body]
fn uuid_v5_dns_of(name: &str) -> (r: String)
    ensures
        r@ == uuid_v5_dns(name@),
{
    Uuid::new_v5(&Uuid::NAMESPACE_DNS, name.as_bytes()).to_string()
}

/// The id derived from a vector's content: the same vector always gets the
/// same id.
pub fn get_uuid(vector: &[u64]) -> (r: String)
    ensures
        r@ == content_id(vector@),
{
    let t = format_vector(vector);
    uuid_v5_dns_of(t.as_str())
}

impl PointStruct {
    /// A point of the given id, vector and payload.
    pub fn new(id: &str, vector: Vec<u64>, payload: Payload) -> (r: Self)
        ensures
            r.id@ == id@,
            r.vector == vector,
            r.payload == payload,
    {
        PointStruct { id: String::from_str(id), vector, payload }
    }

    /// A point whose id is derived from the vector's content.
    pub fn create(vector: Vec<u64>, content: &str, metadata: Metadata) -> (r: Self)
        ensures
            r.id@ == content_id(vector@),
            r.vector == vector,
            r.payload.content@ == content@,
            r.payload.metadata == metadata,
    {
        let id = get_uuid(vector.as_slice());
        let payload = Payload::new(content, metadata);
        PointStruct { id, vector, payload }
    }

    /// Sets the vector.
    pub fn with_vector(self, vector: Vec<u64>) -> (r: Self)
        ensures
            r.id == self.id,
            r.vector == vector,
            r.payload == self.payload,
    {
        let mut p = self;
        p.vector = vector;
        p
    }

    /// Sets the payload.
    pub fn with_payload(self, payload: Payload) -> (r: Self)
        ensures
            r.id == self.id,
            r.vector == self.vector,
            r.payload == payload,
    {
        let mut p = self;
        p.payload = payload;
        p
    }
}

} // verus!
