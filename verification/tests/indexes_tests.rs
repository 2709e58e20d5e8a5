use celestia::indexes::{covers_name_and_timestamp, is_exists_indexes};
use mongodb::bson::{Bson, Document};

fn keys(entries: &[(&str, Bson)]) -> Document {
    let mut document = Document::new();
    for (key, value) in entries {
        document.insert(key.to_string(), value.clone());
    }
    document
}

fn name_and_timestamp() -> Document {
    keys(&[("name", Bson::Int32(1)), ("timestamp", Bson::Int32(1))])
}

#[test]
fn an_index_ascending_on_name_and_timestamp_is_recognised() {
    assert!(covers_name_and_timestamp(&name_and_timestamp()));
    let reordered = keys(&[("timestamp", Bson::Int32(1)), ("name", Bson::Int32(1))]);
    assert!(covers_name_and_timestamp(&reordered));
    let wider = keys(&[
        ("name", Bson::Int32(1)),
        ("mass", Bson::Int32(-1)),
        ("timestamp", Bson::Int32(1)),
    ]);
    assert!(covers_name_and_timestamp(&wider));
}

#[test]
fn an_index_on_one_of_the_two_fields_is_not_enough() {
    assert!(!covers_name_and_timestamp(&keys(&[("name", Bson::Int32(1))])));
    assert!(!covers_name_and_timestamp(&keys(&[("timestamp", Bson::Int32(1))])));
    assert!(!covers_name_and_timestamp(&keys(&[("_id", Bson::Int32(1))])));
    assert!(!covers_name_and_timestamp(&Document::new()));
}

#[test]
fn a_descending_or_differently_typed_key_does_not_count() {
    let descending = keys(&[("name", Bson::Int32(-1)), ("timestamp", Bson::Int32(1))]);
    assert!(!covers_name_and_timestamp(&descending));
    let wide = keys(&[("name", Bson::Int64(1)), ("timestamp", Bson::Int32(1))]);
    assert!(!covers_name_and_timestamp(&wide));
    let floating = keys(&[("name", Bson::Int32(1)), ("timestamp", Bson::Double(1.0))]);
    assert!(!covers_name_and_timestamp(&floating));
    let texts = keys(&[
        ("name", Bson::String("1".to_string())),
        ("timestamp", Bson::Int32(1)),
    ]);
    assert!(!covers_name_and_timestamp(&texts));
}

#[test]
fn the_index_is_found_anywhere_in_the_listing() {
    let id = keys(&[("_id", Bson::Int32(1))]);
    let name = keys(&[("name", Bson::Int32(1))]);
    let first = vec![name_and_timestamp(), id.clone()];
    let last = vec![id.clone(), name.clone(), name_and_timestamp()];
    assert!(is_exists_indexes(false, Some(&first)));
    assert!(is_exists_indexes(false, Some(&last)));
}

#[test]
fn a_listing_without_the_index_says_so() {
    let id = keys(&[("_id", Bson::Int32(1))]);
    let name = keys(&[("name", Bson::Int32(1))]);
    let timestamp = keys(&[("timestamp", Bson::Int32(1))]);
    assert!(!is_exists_indexes(false, Some(&vec![id, name, timestamp])));
    assert!(!is_exists_indexes(false, Some(&Vec::new())));
}

#[test]
fn a_listing_that_failed_counts_as_no_index() {
    assert!(!is_exists_indexes(false, None));
}

#[test]
fn a_known_index_needs_no_listing() {
    assert!(is_exists_indexes(true, None));
    assert!(is_exists_indexes(true, Some(&Vec::new())));
    assert!(is_exists_indexes(true, Some(&vec![name_and_timestamp()])));
}
