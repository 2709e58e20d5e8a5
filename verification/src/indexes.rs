//! The uniqueness index of the remote store.
//!
//! The database keeps one document per body and instant, and an index that
//! is ascending on `name` and on `timestamp` makes that pair unique. Before
//! the first insert the caller lists the indexes of the collection; this
//! module reads the key documents of that listing and says whether the
//! index is there.

use mongodb::bson::Document;
use vstd::prelude::*;

verus! {

/// `bson::Document`, the ordered map from keys to BSON values in which the
/// database describes the fields of an index.
#[verifier::external_type_specification]
#[verifier::external_body]
pub struct ExDocument(Document);

/// The entries of a BSON document whose value is a 32-bit integer, by key.
pub uninterp spec fn int32_entries(document: Document) -> Map<Seq<char>, i32>;

/// Calls `Document::get` with `key` and `Bson::as_i32` on what it finds.
/// Trusted: `get` returns the value kept under the key, if there is one,
/// and `as_i32` returns its number exactly where the value is a 32-bit
/// integer.
#[verifier::external_body]
fn get_i32(document: &Document, key: &str) -> (r: Option<i32>)
    ensures
        r == (if int32_entries(*document).contains_key(key@) {
            Some(int32_entries(*document)[key@])
        } else {
            None
        }),
{
    match document.get(key) {
        Some(value) => value.as_i32(),
        None => None,
    }
}

/// Whether `entries` holds `key` with the value 1, which is how an index
/// says that it is ascending on a field.
pub open spec fn ascending_on(entries: Map<Seq<char>, i32>, key: Seq<char>) -> bool {
    entries.contains_key(key) && entries[key] == 1
}

/// Whether an index with these keys is ascending on `name` and on
/// `timestamp`.
pub open spec fn is_name_timestamp_index(keys: Document) -> bool {
    ascending_on(int32_entries(keys), "name"@) && ascending_on(int32_entries(keys), "timestamp"@)
}

/// Whether one of the listed indexes is ascending on `name` and on
/// `timestamp`.
pub open spec fn lists_name_timestamp_index(listing: Seq<Document>) -> bool {
    exists|position: int|
        0 <= position < listing.len() && is_name_timestamp_index(#[trigger] listing[position])
}

/// Whether an index with the key document `keys` is ascending on `name` and
/// on `timestamp`.
pub fn covers_name_and_timestamp(keys: &Document) -> (r: bool)
    ensures
        r == is_name_timestamp_index(*keys),
{
    let name_ok = match get_i32(keys, "name") {
        Some(direction) => direction == 1,
        None => false,
    };
    let timestamp_ok = match get_i32(keys, "timestamp") {
        Some(direction) => direction == 1,
        None => false,
    };
    name_ok && timestamp_ok
}

/// Whether the index on `name` and `timestamp` exists.
///
/// `indexed` says that it is already known to exist. `listing` holds the key
/// documents of the indexes of the collection, or nothing where they could
/// not be listed, which counts as the index not being there.
pub fn is_exists_indexes(indexed: bool, listing: Option<&Vec<Document>>) -> (r: bool)
    ensures
        r == (indexed || (listing matches Some(keys) && lists_name_timestamp_index(keys@))),
{
    if indexed {
        return true;
    }
    match listing {
        None => false,
        Some(keys) => {
            let mut position: usize = 0;
            while position < keys.len()
                invariant
                    listing == Some(keys),
                    position <= keys@.len(),
                    forall|earlier: int|
                        0 <= earlier < position ==> !is_name_timestamp_index(#[trigger] keys@[earlier]),
                decreases keys.len() - position,
            {
                if covers_name_and_timestamp(&keys[position]) {
                    return true;
                }
                position = position + 1;
            }
            false
        },
    }
}

} // verus!
