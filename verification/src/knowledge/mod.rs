//! Knowledge base logic: what search results become as stored entries, and
//! how stored metadata is handed back. Embedding and the vector database are
//! the caller's part.
pub mod embeddings;
pub mod vectordb;

use vstd::prelude::*;
use crate::json::{Json, JsonValue, entries_view, push_entry};

verus! {

/// The metadata handed back with a knowledge hit: none for null, an object's
/// members as they are, and any other value under the key `value`.
pub fn hit_metadata(v: JsonValue) -> (r: Option<Vec<(String, JsonValue)>>)
    ensures
        match v@ {
            Json::Null => r is None,
            Json::Obj(members) => r matches Some(m) && entries_view(m@) == members,
            _ => r matches Some(m) && entries_view(m@) == seq![("value"@, v@)],
        },
{
    let ghost original = v@;
    match v {
        JsonValue::Null => None,
        JsonValue::Object(members) => Some(members),
        other => {
            let mut m: Vec<(String, JsonValue)> = Vec::new();
            push_entry(&mut m, "value", other);
            assert(entries_view(m@) =~= seq![("value"@, original)]);
            Some(m)
        },
    }
}

} // verus!
