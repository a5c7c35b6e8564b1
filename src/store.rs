//! Collection-level operations addressed by collection name.
use crate::command::{commands_view, Command, CommandView};
use crate::engine::{
    delete_plan, document_count, is_add_plan, is_create_plan, reported_total, CollectionInfo,
    RedisEngine, Reply, DEFAULT_DIMENSION,
};
use crate::keys::{metadata_key, vector_key};
use crate::models::PointStruct;
use crate::search::opt_str_view;
use crate::text::{first_segment, has_colon, after_first_colon, split_first_colon};
use vstd::prelude::*;

verus! {

/// The collection and record id that a lookup id addresses: a compound
/// `collection:id` names both, the id being all that follows the first `:`; a bare id is looked up in the given
/// collection, or in `empty` when none is given.
pub open spec fn resolved_id(vector_id: Seq<char>, collection: Option<Seq<char>>) -> (
    Seq<char>,
    Seq<char>,
) {
    if has_colon(vector_id) {
        (first_segment(vector_id), after_first_colon(vector_id))
    } else {
        (
            match collection {
                Some(c) => c,
                None => "empty"@,
            },
            vector_id,
        )
    }
}

/// The collection and record id that `vector_id` addresses.
pub fn resolve_vector_id(vector_id: &str, collection_name: Option<&str>) -> (r: (String, String))
    ensures
        (r.0@, r.1@) == resolved_id(vector_id@, opt_str_view(collection_name)),
{
    match split_first_colon(vector_id) {
        Some((c, id)) => (c, id),
        None => {
            let c = match collection_name {
                Some(c) => String::from_str(c),
                None => String::from_str("empty"),
            };
            (c, String::from_str(vector_id))
        },
    }
}

/// The commands that create `collection_name`, given what its index probe
/// said; none when the index exists.
pub fn create_collection(collection_name: &str, index_exists: bool) -> (r: Vec<Command>)
    ensures
        is_create_plan(commands_view(r@), collection_name@, DEFAULT_DIMENSION, index_exists),
{
    RedisEngine::new(collection_name).create_collection(index_exists)
}

/// The index drop that deletes `collection_name`; what follows it is
/// `RedisEngine::after_drop`.
pub fn delete_collection(collection_name: &str) -> (r: Command)
    ensures
        r@ == (CommandView::DropIndex { index: collection_name@ }),
{
    RedisEngine::new(collection_name).delete_collection()
}

/// The info of `collection_name` from its probes and its count reply.
pub fn get_collection(
    collection_name: &str,
    index_exists: bool,
    metadata_exists: bool,
    placeholder_exists: bool,
    count_reply: Option<Reply>,
) -> (r: CollectionInfo)
    ensures
        r.collection_name@ == collection_name@,
        r.index_exists == index_exists,
        r.metadata_exists == metadata_exists,
        r.document_count == (if index_exists {
            document_count(reported_total(count_reply), placeholder_exists)
        } else {
            0
        }),
{
    RedisEngine::new(collection_name).get_collection_info(
        index_exists,
        metadata_exists,
        placeholder_exists,
        count_reply,
    )
}

/// The store of the collection that `vector_id` addresses and the read of
/// the record's hash there.
pub fn get_vector(vector_id: &str, collection_name: Option<&str>) -> (r: (RedisEngine, Command))
    ensures
        r.0.name() == resolved_id(vector_id@, opt_str_view(collection_name)).0,
        r.0.wf(),
        r.1@ == (CommandView::HashReadAll {
            key: vector_key(
                resolved_id(vector_id@, opt_str_view(collection_name)).0,
                resolved_id(vector_id@, opt_str_view(collection_name)).1,
            ),
        }),
{
    let (collection, id) = resolve_vector_id(vector_id, collection_name);
    let engine = RedisEngine::new(collection.as_str());
    let read = engine.vector_lookup(id.as_str());
    (engine, read)
}

/// The commands that add `point` to `collection_name`, the collection's
/// creation first as its index probe's answer asks, and its vector and
/// metadata ids.
pub fn add_vector_and_metadata(point: PointStruct, collection_name: &str, index_exists: bool) -> (r: (
    Vec<Command>,
    (String, String),
))
    requires
        point.vector@.len() * 8 <= usize::MAX,
    ensures
        is_add_plan(
            commands_view(r.0@),
            collection_name@,
            DEFAULT_DIMENSION,
            index_exists,
            point.id@,
            point.vector@,
            point.payload,
        ),
        r.1.0@ == point.id@,
        r.1.1@ == metadata_key(point.id@),
{
    RedisEngine::new(collection_name).add_vector_and_metadata(point, index_exists)
}

/// The commands that delete record `vector_id` of `collection_name`.
pub fn delete_vector_and_metadata(vector_id: &str, collection_name: &str) -> (r: Vec<Command>)
    ensures
        commands_view(r@) == delete_plan(collection_name@, vector_id@),
{
    RedisEngine::new(collection_name).delete_vector_and_metadata(vector_id)
}

} // verus!
