//! The names under which records and documents are stored.
use crate::text::{join2, join3};
use vstd::prelude::*;

verus! {

/// Key of the vector hash of record `id` in `collection`.
pub open spec fn vector_key(collection: Seq<char>, id: Seq<char>) -> Seq<char> {
    collection + ":"@ + id
}

/// Key of the metadata document of record `id`.
pub open spec fn metadata_key(id: Seq<char>) -> Seq<char> {
    "metadata:"@ + id
}

/// Key of the placeholder metadata document of `collection`.
pub open spec fn placeholder_metadata_key(collection: Seq<char>) -> Seq<char> {
    "metadata:"@ + collection + ":empty"@
}

/// Key of the placeholder vector hash of `collection`.
pub open spec fn placeholder_vector_key(collection: Seq<char>) -> Seq<char> {
    collection + ":empty"@
}

/// The prefix of every key of `collection`.
pub open spec fn key_prefix(collection: Seq<char>) -> Seq<char> {
    collection + ":"@
}

/// The pattern that matches every key of `collection`.
pub open spec fn key_pattern(collection: Seq<char>) -> Seq<char> {
    collection + ":*"@
}

pub fn make_vector_key(collection: &str, id: &str) -> (r: String)
    ensures
        r@ == vector_key(collection@, id@),
{
    join3(collection, ":", id)
}

pub fn make_metadata_key(id: &str) -> (r: String)
    ensures
        r@ == metadata_key(id@),
{
    join2("metadata:", id)
}

pub fn make_placeholder_metadata_key(collection: &str) -> (r: String)
    ensures
        r@ == placeholder_metadata_key(collection@),
{
    join3("metadata:", collection, ":empty")
}

pub fn make_placeholder_vector_key(collection: &str) -> (r: String)
    ensures
        r@ == placeholder_vector_key(collection@),
{
    join2(collection, ":empty")
}

pub fn make_key_prefix(collection: &str) -> (r: String)
    ensures
        r@ == key_prefix(collection@),
{
    join2(collection, ":")
}

pub fn make_key_pattern(collection: &str) -> (r: String)
    ensures
        r@ == key_pattern(collection@),
{
    join2(collection, ":*")
}

} // verus!
