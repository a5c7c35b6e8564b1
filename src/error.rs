//! Error kinds of the vector store.
use vstd::prelude::*;

verus! {

/// What can go wrong in a vector-store operation. Absence of a record is not
/// an error: lookups report it as `None`.
#[derive(Debug, Clone, PartialEq, Eq)]
pub enum VectorStoreError {
    /// The storage/search backend rejected or failed a command.
    RedisError(String),
    /// Structured data could not be encoded.
    SerializationError(String),
    /// Structured data could not be decoded.
    DeserializationError(String),
    /// A stored record lacks a field it must have.
    IntegrityError(String),
    /// The object source failed.
    GcsError(String),
    /// Any other failure, the embedding provider's included.
    Other(String),
}

/// The prefix that the message of each kind of error starts with.
pub open spec fn error_label(e: VectorStoreError) -> Seq<char> {
    match e {
        VectorStoreError::RedisError(_) => "Redis error: "@,
        VectorStoreError::SerializationError(_) => "Serialization error: "@,
        VectorStoreError::DeserializationError(_) => "Deserialization error: "@,
        VectorStoreError::IntegrityError(_) => "Integrity error: "@,
        VectorStoreError::GcsError(_) => "GCS error: "@,
        VectorStoreError::Other(_) => "Error: "@,
    }
}

/// The detail that an error carries.
pub open spec fn error_detail(e: VectorStoreError) -> Seq<char> {
    match e {
        VectorStoreError::RedisError(m) => m@,
        VectorStoreError::SerializationError(m) => m@,
        VectorStoreError::DeserializationError(m) => m@,
        VectorStoreError::IntegrityError(m) => m@,
        VectorStoreError::GcsError(m) => m@,
        VectorStoreError::Other(m) => m@,
    }
}

impl VectorStoreError {
    /// The human-readable message: the kind's label followed by the detail.
    pub fn to_string(&self) -> (r: String)
        ensures
            r@ == error_label(*self) + error_detail(*self),
    {
        let (label, detail) = match self {
            VectorStoreError::RedisError(m) => ("Redis error: ", m),
            VectorStoreError::SerializationError(m) => ("Serialization error: ", m),
            VectorStoreError::DeserializationError(m) => ("Deserialization error: ", m),
            VectorStoreError::IntegrityError(m) => ("Integrity error: ", m),
            VectorStoreError::GcsError(m) => ("GCS error: ", m),
            VectorStoreError::Other(m) => ("Error: ", m),
        };
        String::from_str(label).concat(detail.as_str())
    }
}

} // verus!
