//! A vector store over a key-value and search backend: a binary vector
//! codec, records of vector and metadata, collection lifecycle,
//! nearest-neighbour search with an unranked fallback, and a store driver.
//!
//! The library plans each operation as backend commands and decides its
//! outcome from the backend's replies; performing the commands is left to
//! the caller.
use vstd::prelude::*;

pub mod codec;
pub mod command;
pub mod config;
pub mod driver;
pub mod embedding;
pub mod engine;
pub mod error;
pub mod gcs;
pub mod keys;
pub mod models;
pub mod search;
pub mod store;
pub mod text;

pub use codec::{deserialize_vector, serialize_vector};
pub use config::{get_redis_config, RedisConfig};
pub use driver::{get_redis_vector_store_driver, Entry, RedisStackVectorStoreDriver};
pub use embedding::{get_embedding_driver, GoogleEmbeddingDriver};
pub use engine::RedisEngine;
pub use error::VectorStoreError;
pub use gcs::GcsOperations;
pub use models::{get_uuid, MetaValue, Metadata, Payload, PointStruct};
pub use store::{
    add_vector_and_metadata, create_collection, delete_collection, delete_vector_and_metadata,
    get_collection, get_vector,
};

verus! {

} // verus!
