//! The record store: collection lifecycle and record reads, writes and
//! deletes, each planned as backend commands and decided from the replies.
use crate::codec::{decoding, deserialize_vector, encoding, serialize_vector};
use crate::command::{commands_view, Command, CommandView};
use crate::error::VectorStoreError;
use crate::keys::{
    key_prefix, make_key_prefix, make_metadata_key, make_placeholder_metadata_key,
    make_placeholder_vector_key, make_vector_key, metadata_key, placeholder_metadata_key,
    placeholder_vector_key, vector_key,
};
use crate::models::{field_index, lemma_field_index, Metadata, Payload, PointStruct};
use crate::text::{lossy_text, text_eq, text_from_bytes, text_from_bytes_lossy, utf8_text};
use vstd::prelude::*;

verus! {

/// The dimension of a collection when none is given.
pub const DEFAULT_DIMENSION: usize = 768;

/// The largest dimension a collection may have, so that an encoded vector's
/// length fits in memory sizes.
pub const MAX_DIMENSION: usize = 0x0fff_ffff;

/// A reply of the backend.
#[derive(Debug)]
pub enum Reply {
    Nil,
    Int(i64),
    Data(Vec<u8>),
    Bulk(Vec<Reply>),
    Status(String),
    Okay,
}

/// What the backend reports of a collection.
#[derive(Debug)]
pub struct CollectionInfo {
    pub collection_name: String,
    pub index_exists: bool,
    pub metadata_exists: bool,
    /// Records of the collection, the placeholder not counted.
    pub document_count: i64,
}

/// The record store of one collection.
#[derive(Debug)]
pub struct RedisEngine {
    pub collection_name: String,
    pub dimension: usize,
}

/// Whether `p` is the placeholder document: empty content and zeroed
/// required fields.
pub open spec fn is_placeholder_payload(p: Payload) -> bool {
    &&& p.content@.len() == 0
    &&& p.metadata.uri@.len() == 0
    &&& p.metadata.chunk_id == 0
    &&& p.metadata.source@.len() == 0
    &&& p.metadata.extra@.len() == 0
}

/// The zero vector of dimension `dim`.
pub open spec fn zero_vector(dim: nat) -> Seq<u64> {
    Seq::new(dim, |i: int| 0u64)
}

/// Whether `cmds` are the commands that create collection `name` when the
/// index probe said `exists`: none when it exists; otherwise the index, the
/// placeholder document, then the placeholder vector.
pub open spec fn is_create_plan(
    cmds: Seq<CommandView>,
    name: Seq<char>,
    dim: usize,
    exists: bool,
) -> bool {
    if exists {
        cmds.len() == 0
    } else {
        &&& cmds.len() == 3
        &&& cmds[0] == CommandView::CreateIndex {
            index: name,
            prefix: key_prefix(name),
            dimension: dim,
        }
        &&& cmds[1] matches CommandView::DocWrite { key, doc } && key == placeholder_metadata_key(
            name,
        ) && is_placeholder_payload(doc)
        &&& cmds[2] == CommandView::HashWrite {
            key: placeholder_vector_key(name),
            vector: encoding(zero_vector(dim as nat)),
            metadata_ref: placeholder_metadata_key(name),
        }
    }
}

/// The commands that store record `id` of `collection`: its vector hash,
/// then its metadata document.
pub open spec fn upsert_plan(
    collection: Seq<char>,
    id: Seq<char>,
    vector: Seq<u64>,
    payload: Payload,
) -> Seq<CommandView> {
    seq![
        CommandView::HashWrite {
            key: vector_key(collection, id),
            vector: encoding(vector),
            metadata_ref: metadata_key(id),
        },
        CommandView::DocWrite { key: metadata_key(id), doc: payload },
    ]
}

/// The commands that delete record `id` of `collection`: its vector hash and
/// its metadata document, each whether or not it exists.
pub open spec fn delete_plan(collection: Seq<char>, id: Seq<char>) -> Seq<CommandView> {
    seq![
        CommandView::KeyDelete { key: vector_key(collection, id) },
        CommandView::DocDelete { key: metadata_key(id) },
    ]
}

/// The value of the first field named `k`, if any.
pub open spec fn hash_field(f: Seq<(Seq<char>, Seq<u8>)>, k: Seq<char>) -> Option<Seq<u8>> {
    let i = field_index(f, k);
    if i < f.len() {
        Some(f[i].1)
    } else {
        None
    }
}

pub open spec fn hash_view(f: Seq<(String, Vec<u8>)>) -> Seq<(Seq<char>, Seq<u8>)> {
    f.map_values(|p: (String, Vec<u8>)| (p.0@, p.1@))
}

/// What the fields of a record's vector hash give: nothing for an absent
/// hash, an integrity error when the vector or the metadata reference is
/// missing or the reference is not text, and otherwise the decoded vector
/// and the reference.
pub open spec fn hash_record(f: Seq<(Seq<char>, Seq<u8>)>) -> Result<
    Option<(Seq<u64>, Seq<char>)>,
    HashFault,
> {
    if f.len() == 0 {
        Ok(None)
    } else {
        match hash_field(f, "vector"@) {
            None => Err(HashFault::MissingVector),
            Some(v) => match hash_field(f, "metadata_json_id"@) {
                None => Err(HashFault::MissingReference),
                Some(r) => match utf8_text(r) {
                    None => Err(HashFault::InvalidReference),
                    Some(t) => Ok(Some((decoding(v), t))),
                },
            },
        }
    }
}

/// What can be wrong with a stored vector hash.
pub enum HashFault {
    MissingVector,
    MissingReference,
    InvalidReference,
}

/// The message of the integrity error for a fault.
pub open spec fn fault_message(f: HashFault) -> Seq<char> {
    match f {
        HashFault::MissingVector => "Vector not found in Redis hash"@,
        HashFault::MissingReference => "Metadata ID not found in Redis hash"@,
        HashFault::InvalidReference => "Invalid UTF-8 in metadata ID"@,
    }
}

/// The state of the backend as far as the record store uses it.
pub struct StoreModel {
    /// Each index with the key prefix it covers.
    pub indexes: Map<Seq<char>, Seq<char>>,
    pub hashes: Map<Seq<char>, (Seq<u8>, Seq<char>)>,
    pub docs: Map<Seq<char>, Payload>,
}

/// The keys that do not start with `prefix`.
pub open spec fn keys_outside(prefix: Seq<char>) -> Set<Seq<char>> {
    Set::new(|k: Seq<char>| !(k.len() >= prefix.len() && k.subrange(0, prefix.len() as int) == prefix))
}

/// The state after the backend performs `c`.
pub open spec fn apply(s: StoreModel, c: CommandView) -> StoreModel {
    match c {
        CommandView::CreateIndex { index, prefix, dimension } => StoreModel {
            indexes: s.indexes.insert(index, prefix),
            ..s
        },
        CommandView::DropIndex { index } => if s.indexes.contains_key(index) {
            StoreModel {
                indexes: s.indexes.remove(index),
                hashes: s.hashes.restrict(keys_outside(s.indexes[index])),
                docs: s.docs,
            }
        } else {
            s
        },
        CommandView::HashWrite { key, vector, metadata_ref } => StoreModel {
            hashes: s.hashes.insert(key, (vector, metadata_ref)),
            ..s
        },
        CommandView::KeyDelete { key } => StoreModel { hashes: s.hashes.remove(key), ..s },
        CommandView::DocWrite { key, doc } => StoreModel { docs: s.docs.insert(key, doc), ..s },
        CommandView::DocDelete { key } => StoreModel { docs: s.docs.remove(key), ..s },
        _ => s,
    }
}

/// The state after the backend performs `cmds` in order.
pub open spec fn run(s: StoreModel, cmds: Seq<CommandView>) -> StoreModel
    decreases cmds.len(),
{
    if cmds.len() == 0 {
        s
    } else {
        run(apply(s, cmds[0]), cmds.drop_first())
    }
}

/// What looking up record `id` of `collection` finds: nothing when its hash
/// is absent, else its decoded vector and the document its reference names.
pub open spec fn lookup(s: StoreModel, collection: Seq<char>, id: Seq<char>) -> Option<
    (Seq<u64>, Option<Payload>),
> {
    if s.hashes.contains_key(vector_key(collection, id)) {
        let h = s.hashes[vector_key(collection, id)];
        Some(
            (
                decoding(h.0),
                if s.docs.contains_key(h.1) {
                    Some(s.docs[h.1])
                } else {
                    None
                },
            ),
        )
    } else {
        None
    }
}

proof fn lemma_run_one(s: StoreModel, p: Seq<CommandView>)
    requires
        p.len() == 1,
    ensures
        run(s, p) == apply(s, p[0]),
{
    assert(p.drop_first().len() == 0);
    assert(run(apply(s, p[0]), p.drop_first()) == apply(s, p[0]));
}

proof fn lemma_run_two(s: StoreModel, p: Seq<CommandView>)
    requires
        p.len() == 2,
    ensures
        run(s, p) == apply(apply(s, p[0]), p[1]),
{
    let q = p.drop_first();
    lemma_run_one(apply(s, p[0]), q);
    assert(q[0] == p[1]);
}

proof fn lemma_run_three(s: StoreModel, p: Seq<CommandView>)
    requires
        p.len() == 3,
    ensures
        run(s, p) == apply(apply(apply(s, p[0]), p[1]), p[2]),
{
    let q = p.drop_first();
    lemma_run_two(apply(s, p[0]), q);
    assert(q[0] == p[1]);
    assert(q[1] == p[2]);
}

proof fn lemma_run_concat(s: StoreModel, a: Seq<CommandView>, b: Seq<CommandView>)
    ensures
        run(s, a + b) == run(run(s, a), b),
    decreases a.len(),
{
    if a.len() == 0 {
        assert(a + b =~= b);
    } else {
        assert((a + b)[0] == a[0]);
        assert((a + b).drop_first() =~= a.drop_first() + b);
        lemma_run_concat(apply(s, a[0]), a.drop_first(), b);
    }
}

/// The number of commands a create plan has for the probe's answer.
pub open spec fn create_len(exists: bool) -> int {
    if exists {
        0
    } else {
        3
    }
}

/// Whether `cmds` first create collection `name` as the index probe's answer
/// `exists` asks for, and then store record `id`.
pub open spec fn is_add_plan(
    cmds: Seq<CommandView>,
    name: Seq<char>,
    dim: usize,
    exists: bool,
    id: Seq<char>,
    vector: Seq<u64>,
    payload: Payload,
) -> bool {
    &&& cmds.len() == create_len(exists) + 2
    &&& is_create_plan(cmds.subrange(0, create_len(exists)), name, dim, exists)
    &&& cmds.subrange(create_len(exists), cmds.len() as int) == upsert_plan(name, id, vector, payload)
}

/// After a record is added, the collection's index exists, and looking the
/// record up gives its vector and its payload.
pub proof fn lemma_add_then_get(
    s: StoreModel,
    name: Seq<char>,
    dim: usize,
    cmds: Seq<CommandView>,
    id: Seq<char>,
    vector: Seq<u64>,
    payload: Payload,
)
    requires
        is_add_plan(cmds, name, dim, s.indexes.contains_key(name), id, vector, payload),
    ensures
        run(s, cmds).indexes.contains_key(name),
        lookup(run(s, cmds), name, id) == Some((vector, Some(payload))),
{
    let k = create_len(s.indexes.contains_key(name));
    let a = cmds.subrange(0, k);
    let b = cmds.subrange(k, cmds.len() as int);
    assert(cmds =~= a + b);
    lemma_run_concat(s, a, b);
    let s1 = run(s, a);
    if s.indexes.contains_key(name) {
        assert(a.len() == 0);
    } else {
        lemma_run_three(s, a);
    }
    assert(s1.indexes.contains_key(name));
    lemma_run_two(s1, b);
    lemma_upsert_then_get(s1, name, id, vector, payload);
}

/// Creating a collection twice leaves the backend as creating it once does,
/// and the index exists after either.
pub proof fn lemma_create_idempotent(
    s: StoreModel,
    name: Seq<char>,
    dim: usize,
    first: Seq<CommandView>,
    second: Seq<CommandView>,
)
    requires
        is_create_plan(first, name, dim, s.indexes.contains_key(name)),
        is_create_plan(second, name, dim, run(s, first).indexes.contains_key(name)),
    ensures
        run(s, first).indexes.contains_key(name),
        run(run(s, first), second) == run(s, first),
{
    if !s.indexes.contains_key(name) {
        let s1 = apply(s, first[0]);
        let s2 = apply(s1, first[1]);
        let s3 = apply(s2, first[2]);
        lemma_run_three(s, first);
    }
}

/// After a record is stored, looking it up gives its vector and its payload.
pub proof fn lemma_upsert_then_get(
    s: StoreModel,
    collection: Seq<char>,
    id: Seq<char>,
    vector: Seq<u64>,
    payload: Payload,
)
    ensures
        lookup(run(s, upsert_plan(collection, id, vector, payload)), collection, id) == Some(
            (vector, Some(payload)),
        ),
{
    let p = upsert_plan(collection, id, vector, payload);
    let s1 = apply(s, p[0]);
    let s2 = apply(s1, p[1]);
    lemma_run_two(s, p);
    crate::codec::lemma_round_trip(vector);
}

/// After a record is deleted, looking it up finds nothing, and deleting it
/// again changes nothing.
pub proof fn lemma_delete_complete(s: StoreModel, collection: Seq<char>, id: Seq<char>)
    ensures
        lookup(run(s, delete_plan(collection, id)), collection, id) is None,
        run(run(s, delete_plan(collection, id)), delete_plan(collection, id)) == run(
            s,
            delete_plan(collection, id),
        ),
{
    let p = delete_plan(collection, id);
    let s1 = apply(s, p[0]);
    let s2 = apply(s1, p[1]);
    lemma_run_two(s, p);
    let t1 = apply(s2, p[0]);
    let t2 = apply(t1, p[1]);
    lemma_run_two(s2, p);
    assert(t2.hashes =~= s2.hashes);
    assert(t2.docs =~= s2.docs);
}

/// The first field of `fields` named `k`, by position.
fn find_hash_field(fields: &Vec<(String, Vec<u8>)>, k: &str) -> (r: usize)
    ensures
        r == field_index(hash_view(fields@), k@),
{
    let ghost f = hash_view(fields@);
    let n = fields.len();
    let mut i: usize = 0;
    proof {
        lemma_field_index(f, k@);
    }
    while i < n
        invariant
            n == fields@.len(),
            f == hash_view(fields@),
            0 <= i <= n,
            forall|j: int| 0 <= j < i ==> #[trigger] f[j].0 != k@,
            0 <= field_index(f, k@) <= f.len(),
            field_index(f, k@) < f.len() ==> f[field_index(f, k@)].0 == k@,
            forall|j: int| 0 <= j < field_index(f, k@) ==> #[trigger] f[j].0 != k@,
        decreases n - i,
    {
        if text_eq(fields[i].0.as_str(), k) {
            assert(f[i as int].0 == k@);
            return i;
        }
        assert(f[i as int].0 != k@);
        i = i + 1;
    }
    i
}

/// Reads the fields of a record's vector hash: `None` when the hash is
/// absent (no fields); an integrity error when the vector or the metadata
/// reference is missing; otherwise the decoded vector and the reference.
pub fn read_vector_hash(fields: Vec<(String, Vec<u8>)>) -> (r: Result<
    Option<(Vec<u64>, String)>,
    VectorStoreError,
>)
    ensures
        match (r, hash_record(hash_view(fields@))) {
            (Ok(None), Ok(None)) => true,
            (Ok(Some((v, t))), Ok(Some((w, u)))) => v@ == w && t@ == u,
            (Err(VectorStoreError::IntegrityError(m)), Err(f)) => m@ == fault_message(f),
            _ => false,
        },
{
    let ghost f = hash_view(fields@);
    if fields.len() == 0 {
        return Ok(None);
    }
    let vi = find_hash_field(&fields, "vector");
    if vi == fields.len() {
        return Err(VectorStoreError::IntegrityError(String::from_str("Vector not found in Redis hash")));
    }
    let ri = find_hash_field(&fields, "metadata_json_id");
    if ri == fields.len() {
        return Err(VectorStoreError::IntegrityError(String::from_str("Metadata ID not found in Redis hash")));
    }
    let vector = deserialize_vector(fields[vi].1.as_slice());
    assert(f[vi as int].1 == fields@[vi as int].1@);
    let reference_bytes = fields[ri].1.clone();
    assert(f[ri as int].1 == fields@[ri as int].1@);
    match text_from_bytes(reference_bytes) {
        None => Err(VectorStoreError::IntegrityError(String::from_str("Invalid UTF-8 in metadata ID"))),
        Some(t) => Ok(Some((vector, t))),
    }
}

/// The name/value pairs among the first `m` pairs of a hash read's flat
/// reply, each name read as text; a pair that is not two byte strings is
/// skipped.
pub open spec fn reply_pairs(items: Seq<Reply>, m: nat) -> Seq<(Seq<char>, Seq<u8>)>
    decreases m,
{
    if m == 0 {
        Seq::empty()
    } else {
        let prev = reply_pairs(items, (m - 1) as nat);
        match (items[2 * (m - 1)], items[2 * (m - 1) + 1]) {
            (Reply::Data(n), Reply::Data(v)) => prev.push((lossy_text(n@), v@)),
            _ => prev,
        }
    }
}

/// The fields of a hash read's reply: the pairs of its flat list, none when
/// it is not a list.
pub open spec fn reply_fields(r: Reply) -> Seq<(Seq<char>, Seq<u8>)> {
    match r {
        Reply::Bulk(items) => reply_pairs(items@, items@.len() / 2),
        _ => Seq::empty(),
    }
}

/// The fields of a hash read's reply, which lists names and values flat.
pub fn hash_fields(reply: Reply) -> (r: Vec<(String, Vec<u8>)>)
    ensures
        hash_view(r@) == reply_fields(reply),
{
    let ghost g = reply;
    let mut items = match reply {
        Reply::Bulk(items) => items,
        _ => {
            let r: Vec<(String, Vec<u8>)> = Vec::new();
            assert(hash_view(r@) =~= reply_fields(g));
            return r;
        },
    };
    let ghost all = items@;
    let n = items.len() / 2;
    let mut out: Vec<(String, Vec<u8>)> = Vec::new();
    let mut m: usize = 0;
    while m < n
        invariant
            n == all.len() / 2,
            m <= n,
            items@.len() == all.len() - 2 * m,
            forall|i: int| 0 <= i < items@.len() ==> #[trigger] items@[i] == all[2 * m + i],
            hash_view(out@) == reply_pairs(all, m as nat),
        decreases n - m,
    {
        let ghost before = out@;
        let ghost old_items = items@;
        let name = items.remove(0);
        let value = items.remove(0);
        proof {
            assert(name == all[2 * m as int]);
            assert(value == all[2 * m + 1]);
            assert forall|i: int| 0 <= i < items@.len() implies #[trigger] items@[i] == all[2 * (m
                + 1) + i] by {
                assert(items@[i] == old_items[i + 2]);
            }
        }
        match (name, value) {
            (Reply::Data(nb), Reply::Data(vb)) => {
                let t = text_from_bytes_lossy(nb.as_slice());
                out.push((t, vb));
                assert(hash_view(out@) =~= hash_view(before).push(
                    (lossy_text(nb@), vb@),
                ));
            },
            _ => {},
        }
        m = m + 1;
    }
    assert(reply_fields(g) == reply_pairs(all, n as nat));
    out
}

/// The placeholder document.
pub fn placeholder_payload() -> (r: Payload)
    ensures
        is_placeholder_payload(r),
{
    proof {
        reveal_strlit("");
    }
    Payload::new("", Metadata::new("", 0, ""))
}

/// The zero vector of dimension `dim`.
pub fn make_zero_vector(dim: usize) -> (r: Vec<u64>)
    ensures
        r@ == zero_vector(dim as nat),
{
    let mut v: Vec<u64> = Vec::new();
    for i in 0..dim
        invariant
            v@ =~= zero_vector(i as nat),
    {
        v.push(0);
    }
    v
}

impl RedisEngine {
    pub open spec fn name(&self) -> Seq<char> {
        self.collection_name@
    }

    pub open spec fn dim(&self) -> usize {
        self.dimension
    }

    pub open spec fn wf(&self) -> bool {
        self.dimension <= MAX_DIMENSION
    }

    /// The store of `collection_name`, of the default dimension.
    pub fn new(collection_name: &str) -> (r: Self)
        ensures
            r.wf(),
            r.name() == collection_name@,
            r.dim() == DEFAULT_DIMENSION,
    {
        RedisEngine { collection_name: String::from_str(collection_name), dimension: DEFAULT_DIMENSION }
    }

    /// The store of `collection_name`, of the given dimension.
    pub fn with_dimension(collection_name: &str, dimension: usize) -> (r: Self)
        requires
            dimension <= MAX_DIMENSION,
        ensures
            r.wf(),
            r.name() == collection_name@,
            r.dim() == dimension,
    {
        RedisEngine { collection_name: String::from_str(collection_name), dimension }
    }

    pub fn collection_name(&self) -> (r: &str)
        ensures
            r@ == self.name(),
    {
        self.collection_name.as_str()
    }

    pub fn dimension(&self) -> (r: usize)
        ensures
            r == self.dim(),
    {
        self.dimension
    }

    /// The probe whose success says that the collection's index exists.
    pub fn index_probe(&self) -> (r: Command)
        ensures
            r@ == (CommandView::IndexInfo { index: self.name() }),
    {
        Command::IndexInfo { index: String::from_str(self.collection_name.as_str()) }
    }

    /// The probe whose success says that the placeholder document exists.
    pub fn placeholder_probe(&self) -> (r: Command)
        ensures
            r@ == (CommandView::DocRead { key: placeholder_metadata_key(self.name()) }),
    {
        Command::DocRead { key: make_placeholder_metadata_key(self.collection_name.as_str()) }
    }

    /// The commands that create the collection, given what the index probe
    /// said: none when the index exists (creation is idempotent); otherwise
    /// the index, then the placeholder document and vector. They are run in
    /// order, and the first failure aborts the rest.
    pub fn create_collection(&self, index_exists: bool) -> (r: Vec<Command>)
        requires
            self.wf(),
        ensures
            is_create_plan(commands_view(r@), self.name(), self.dim(), index_exists),
    {
        let mut cmds: Vec<Command> = Vec::new();
        if index_exists {
            assert(commands_view(cmds@) =~= Seq::<CommandView>::empty());
            return cmds;
        }
        let name = self.collection_name.as_str();
        cmds.push(
            Command::CreateIndex {
                index: String::from_str(name),
                prefix: make_key_prefix(name),
                dimension: self.dimension,
            },
        );
        cmds.push(
            Command::DocWrite {
                key: make_placeholder_metadata_key(name),
                doc: placeholder_payload(),
            },
        );
        let zeros = make_zero_vector(self.dimension);
        cmds.push(
            Command::HashWrite {
                key: make_placeholder_vector_key(name),
                vector: serialize_vector(zeros.as_slice()),
                metadata_ref: make_placeholder_metadata_key(name),
            },
        );
        assert(commands_view(cmds@).len() == 3);
        cmds
    }

    /// The first step of deleting the collection: the index drop, which takes
    /// the collection's records with it.
    pub fn delete_collection(&self) -> (r: Command)
        ensures
            r@ == (CommandView::DropIndex { index: self.name() }),
    {
        Command::DropIndex { index: String::from_str(self.collection_name.as_str()) }
    }

    /// What follows the index drop: where it succeeded, the placeholder
    /// cleanup, and success whatever the cleanup gives, since the absent index
    /// is what marks a deleted collection; where it failed, no cleanup and the
    /// drop's error.
    pub fn after_drop(&self, drop_result: Result<(), String>) -> (r: (Option<Command>, Result<
        (),
        VectorStoreError,
    >))
        ensures
            match drop_result {
                Ok(()) => r.1 is Ok && (r.0 matches Some(c) && c@ == (CommandView::DocDelete {
                    key: placeholder_metadata_key(self.name()),
                })),
                Err(m) => r.0 is None && r.1 == Err::<(), VectorStoreError>(
                    VectorStoreError::RedisError(m),
                ),
            },
    {
        match drop_result {
            Ok(()) => (
                Some(
                    Command::DocDelete {
                        key: make_placeholder_metadata_key(self.collection_name.as_str()),
                    },
                ),
                Ok(()),
            ),
            Err(m) => (None, Err(VectorStoreError::RedisError(m))),
        }
    }

    /// The read of record `vector_id`'s hash.
    pub fn vector_lookup(&self, vector_id: &str) -> (r: Command)
        ensures
            r@ == (CommandView::HashReadAll { key: vector_key(self.name(), vector_id@) }),
    {
        Command::HashReadAll { key: make_vector_key(self.collection_name.as_str(), vector_id) }
    }

    /// The read of the metadata document that a hash refers to.
    pub fn metadata_lookup(metadata_ref: &str) -> (r: Command)
        ensures
            r@ == (CommandView::DocRead { key: metadata_ref@ }),
    {
        Command::DocRead { key: String::from_str(metadata_ref) }
    }

    /// The record from its hash and its metadata document; a reference to a
    /// document that does not exist is an integrity error.
    pub fn get_vector(vector_id: &str, vector: Vec<u64>, doc: Option<Payload>) -> (r: Result<
        PointStruct,
        VectorStoreError,
    >)
        ensures
            doc is None <==> r is Err,
            r matches Err(e) ==> e is IntegrityError,
            r matches Ok(p) ==> p.id@ == vector_id@ && p.vector == vector && doc == Some(
                p.payload,
            ),
    {
        match doc {
            None => Err(
                VectorStoreError::IntegrityError(String::from_str("Metadata document not found")),
            ),
            Some(payload) => Ok(PointStruct::new(vector_id, vector, payload)),
        }
    }

    /// The commands that add `point`, given what the index probe said: the
    /// collection's create plan (see `create_collection`), then the record's
    /// vector hash and metadata document; and the vector and metadata ids.
    /// They are run in order, and the first failure aborts the rest.
    pub fn add_vector_and_metadata(&self, point: PointStruct, index_exists: bool) -> (r: (
        Vec<Command>,
        (String, String),
    ))
        requires
            self.wf(),
            point.vector@.len() * 8 <= usize::MAX,
        ensures
            is_add_plan(
                commands_view(r.0@),
                self.name(),
                self.dim(),
                index_exists,
                point.id@,
                point.vector@,
                point.payload,
            ),
            r.1.0@ == point.id@,
            r.1.1@ == metadata_key(point.id@),
    {
        let id = point.id;
        let metadata_id = make_metadata_key(id.as_str());
        let mut cmds = self.create_collection(index_exists);
        let ghost created = commands_view(cmds@);
        cmds.push(
            Command::HashWrite {
                key: make_vector_key(self.collection_name.as_str(), id.as_str()),
                vector: serialize_vector(point.vector.as_slice()),
                metadata_ref: make_metadata_key(id.as_str()),
            },
        );
        cmds.push(Command::DocWrite { key: make_metadata_key(id.as_str()), doc: point.payload });
        let ghost c = commands_view(cmds@);
        assert(created.len() == create_len(index_exists));
        assert(c.subrange(0, create_len(index_exists)) =~= created);
        assert(c.subrange(create_len(index_exists), c.len() as int) =~= upsert_plan(
            self.name(),
            point.id@,
            point.vector@,
            point.payload,
        ));
        (cmds, (id, metadata_id))
    }

    /// The commands that delete record `vector_id`; deleting what does not
    /// exist succeeds.
    pub fn delete_vector_and_metadata(&self, vector_id: &str) -> (r: Vec<Command>)
        ensures
            commands_view(r@) == delete_plan(self.name(), vector_id@),
    {
        let mut cmds: Vec<Command> = Vec::new();
        cmds.push(Command::KeyDelete { key: make_vector_key(self.collection_name.as_str(), vector_id) });
        cmds.push(Command::DocDelete { key: make_metadata_key(vector_id) });
        assert(commands_view(cmds@) =~= delete_plan(self.name(), vector_id@));
        cmds
    }

    /// The probe whose success says that the placeholder vector exists.
    pub fn placeholder_vector_probe(&self) -> (r: Command)
        ensures
            r@ == (CommandView::KeyExists { key: placeholder_vector_key(self.name()) }),
    {
        Command::KeyExists { key: make_placeholder_vector_key(self.collection_name.as_str()) }
    }

    /// The document count query, asked only where the index exists.
    pub fn count_query(&self) -> (r: Command)
        ensures
            r@ == (CommandView::CountDocuments { index: self.name() }),
    {
        Command::CountDocuments { index: String::from_str(self.collection_name.as_str()) }
    }

    /// The collection's info from the probes and the count reply (`None`
    /// where the index does not exist and nothing was asked). The placeholder
    /// vector, which the index counts where it exists, is left out.
    pub fn get_collection_info(
        &self,
        index_exists: bool,
        metadata_exists: bool,
        placeholder_exists: bool,
        count_reply: Option<Reply>,
    ) -> (r: CollectionInfo)
        ensures
            r.collection_name@ == self.name(),
            r.index_exists == index_exists,
            r.metadata_exists == metadata_exists,
            r.document_count == (if index_exists {
                document_count(reported_total(count_reply), placeholder_exists)
            } else {
                0
            }),
    {
        let count = if index_exists {
            let total = read_total(&count_reply);
            if placeholder_exists && total > 0 {
                total - 1
            } else {
                total
            }
        } else {
            0
        };
        CollectionInfo {
            collection_name: String::from_str(self.collection_name.as_str()),
            index_exists,
            metadata_exists,
            document_count: count,
        }
    }
}

/// The total that a search reply reports: its leading integer, or 0.
pub open spec fn reported_total(reply: Option<Reply>) -> i64 {
    match reply {
        Some(Reply::Bulk(items)) => if items.len() > 0 {
            match items[0] {
                Reply::Int(n) => n,
                _ => 0,
            }
        } else {
            0
        },
        Some(Reply::Int(n)) => n,
        _ => 0,
    }
}

/// The records counted from the reported total: the placeholder, counted by
/// the backend where it exists, is left out.
pub open spec fn document_count(total: i64, placeholder: bool) -> i64 {
    if placeholder && total > 0 {
        (total - 1) as i64
    } else {
        total
    }
}

fn read_total(reply: &Option<Reply>) -> (r: i64)
    ensures
        r == reported_total(*reply),
{
    match reply {
        Some(Reply::Bulk(items)) => if items.len() > 0 {
            match &items[0] {
                Reply::Int(n) => *n,
                _ => 0,
            }
        } else {
            0
        },
        Some(Reply::Int(n)) => *n,
        _ => 0,
    }
}

} // verus!
