use celestia::instant::Instant;
use celestia::request::{RangeError, RangeQuery, RANGE_LIMIT};

#[test]
fn a_range_with_two_instants_in_order_is_accepted() {
    let query = RangeQuery::parse("2000-01-01T12:00:00Z", "2000-01-02T12:00:00Z", 86_400)
        .expect("a valid range");
    assert_eq!(query.from, Instant::reference_epoch());
    assert_eq!(query.to, Instant::new(946_728_000 + 86_400, 0).unwrap());
    assert_eq!(query.step_seconds, 86_400);
}

#[test]
fn a_range_is_rejected_for_its_first_fault() {
    let invalid_from = RangeQuery::parse("yesterday", "tomorrow", 0);
    assert_eq!(invalid_from.unwrap_err(), RangeError::InvalidFrom);
    let invalid_to = RangeQuery::parse("2000-01-01T12:00:00Z", "tomorrow", 0);
    assert_eq!(invalid_to.unwrap_err(), RangeError::InvalidTo);
    let no_step = RangeQuery::parse("2000-01-01T12:00:00Z", "2000-01-02T12:00:00Z", 0);
    assert_eq!(no_step.unwrap_err(), RangeError::InvalidRange);
}

#[test]
fn a_range_must_end_after_it_starts() {
    let empty = RangeQuery::parse("2000-01-01T12:00:00Z", "2000-01-01T12:00:00Z", 60);
    assert_eq!(empty.unwrap_err(), RangeError::InvalidRange);
    let reversed = RangeQuery::parse("2000-01-02T12:00:00Z", "2000-01-01T12:00:00Z", 60);
    assert_eq!(reversed.unwrap_err(), RangeError::InvalidRange);
    let same_in_other_zone =
        RangeQuery::parse("2000-01-01T12:00:00Z", "2000-01-01T13:00:00+01:00", 60);
    assert_eq!(same_in_other_zone.unwrap_err(), RangeError::InvalidRange);
    let a_nanosecond =
        RangeQuery::parse("2000-01-01T12:00:00Z", "2000-01-01T12:00:00.000000001Z", 60);
    assert!(a_nanosecond.is_ok());
}

#[test]
fn bounds_are_the_two_instants_in_rfc3339() {
    let query = RangeQuery::parse("2000-01-01T13:00:00+01:00", "2000-03-01T00:00:00.5Z", 3600)
        .expect("a valid range");
    let (from, to) = query.bounds();
    assert_eq!(from, "2000-01-01T12:00:00Z");
    assert_eq!(to, "2000-03-01T00:00:00Z");
}

#[test]
fn a_range_query_returns_a_hundred_bodies_at_most() {
    assert_eq!(RANGE_LIMIT, 100);
}
