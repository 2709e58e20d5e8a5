//! What a client may ask for: the state at one instant, or the stored states
//! between two instants.

use crate::instant::{rfc3339_reading, rfc3339_text, view_of, Instant};
use vstd::prelude::*;

verus! {

/// Most stored bodies that a range query returns.
pub const RANGE_LIMIT: i64 = 100;

/// Why a range query was turned down.
#[derive(Clone, Copy, Debug, PartialEq, Eq, Structural)]
pub enum RangeError {
    /// `from` is not an instant.
    InvalidFrom,
    /// `to` is not an instant.
    InvalidTo,
    /// `to` is not later than `from`, or the step is zero.
    InvalidRange,
}

/// A query for the stored states from `from` to `to`.
#[derive(Clone, Copy, Debug)]
pub struct RangeQuery {
    pub from: Instant,
    pub to: Instant,
    pub step_seconds: u64,
}

/// Why the query with these texts and this step is turned down, if it is.
/// The first fault found is reported: `from`, then `to`, then the range.
pub open spec fn rejection(from: Seq<char>, to: Seq<char>, step_seconds: u64) -> Option<
    RangeError,
> {
    if !Instant::accepted(rfc3339_reading(from)) {
        Some(RangeError::InvalidFrom)
    } else if !Instant::accepted(rfc3339_reading(to)) {
        Some(RangeError::InvalidTo)
    } else if !Instant::later(
        view_of(rfc3339_reading(to)->Some_0),
        view_of(rfc3339_reading(from)->Some_0),
    ) || step_seconds == 0 {
        Some(RangeError::InvalidRange)
    } else {
        None
    }
}

impl RangeQuery {
    /// Reads the two bounds of a range from RFC 3339 text and checks that
    /// the range is not empty and the step not zero.
    pub fn parse(from: &str, to: &str, step_seconds: u64) -> (r: Result<RangeQuery, RangeError>)
        ensures
            r matches Err(error) ==> rejection(from@, to@, step_seconds) == Some(error),
            r matches Ok(query) ==> {
                &&& rejection(from@, to@, step_seconds) is None
                &&& query.from@ == view_of(rfc3339_reading(from@)->Some_0)
                &&& query.to@ == view_of(rfc3339_reading(to@)->Some_0)
                &&& query.step_seconds == step_seconds
            },
    {
        let start = match Instant::parse(from) {
            Ok(instant) => instant,
            Err(_) => {
                return Err(RangeError::InvalidFrom);
            },
        };
        let end = match Instant::parse(to) {
            Ok(instant) => instant,
            Err(_) => {
                return Err(RangeError::InvalidTo);
            },
        };
        if !end.is_after(&start) || step_seconds == 0 {
            return Err(RangeError::InvalidRange);
        }
        Ok(RangeQuery { from: start, to: end, step_seconds })
    }

    /// The bounds of the range as the remote store compares them: the RFC
    /// 3339 text of `from`, which stored timestamps must not precede, and of
    /// `to`, which they must not exceed.
    pub fn bounds(&self) -> (r: (String, String))
        ensures
            r.0@ == rfc3339_text(self.from@.secs, self.from@.nanos),
            r.1@ == rfc3339_text(self.to@.secs, self.to@.nanos),
    {
        (self.from.to_rfc3339(), self.to.to_rfc3339())
    }
}

} // verus!
