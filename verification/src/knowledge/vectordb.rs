//! Entries of the vector store.
use vstd::prelude::*;
use crate::json::JsonValue;

verus! {

/// A single entry to store in the vector database.
#[derive(Debug)]
pub struct KnowledgeEntry {
    pub text: String,
    pub source: String,
    pub metadata: JsonValue,
    /// Unix timestamp (seconds since epoch).
    pub timestamp: i64,
}

} // verus!
