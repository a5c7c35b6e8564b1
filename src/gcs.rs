//! Bulk ingestion from an object source: naming and the aggregation of the
//! per-object outcomes.
use crate::error::VectorStoreError;
use crate::text::join2;
use vstd::prelude::*;

verus! {

/// The object source: a bucket of stored records.
#[derive(Debug)]
pub struct GcsOperations {
    pub bucket_name: String,
}

impl GcsOperations {
    pub fn new(bucket_name: &str) -> (r: Self)
        ensures
            r.bucket_name@ == bucket_name@,
    {
        GcsOperations { bucket_name: String::from_str(bucket_name) }
    }
}

/// The prefix under which the objects of a collection are listed.
pub fn blob_prefix(collection_name: &str) -> (r: String)
    ensures
        r@ == collection_name@ + "/"@,
{
    join2(collection_name, "/")
}

/// The outcome of a bulk ingestion: the ids stored, and each object that
/// failed with its error. One failure does not stop the others.
#[derive(Debug)]
pub struct IngestReport {
    pub inserted: Vec<String>,
    pub failed: Vec<(String, VectorStoreError)>,
}

impl IngestReport {
    pub fn new() -> (r: Self)
        ensures
            r.inserted@.len() == 0,
            r.failed@.len() == 0,
    {
        IngestReport { inserted: Vec::new(), failed: Vec::new() }
    }

    /// Records the outcome of one object: its id where it was stored, the
    /// object's name and the error where it failed.
    pub fn record(&mut self, blob_name: String, outcome: Result<String, VectorStoreError>)
        ensures
            match outcome {
                Ok(id) => final(self).inserted@ == old(self).inserted@.push(id)
                    && final(self).failed@ == old(self).failed@,
                Err(e) => final(self).failed@ == old(self).failed@.push((blob_name, e))
                    && final(self).inserted@ == old(self).inserted@,
            },
    {
        match outcome {
            Ok(id) => self.inserted.push(id),
            Err(e) => self.failed.push((blob_name, e)),
        }
    }

    /// How many objects were stored.
    pub fn success_count(&self) -> (r: usize)
        ensures
            r == self.inserted@.len(),
    {
        self.inserted.len()
    }
}

} // verus!
