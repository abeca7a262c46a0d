//! The instant of an event, as plain numbers, and its RFC 3339 text.

use vstd::prelude::*;

verus! {

/// Largest distance from the Unix epoch, in seconds, that a timestamp may
/// have: a little over 220,000 years, inside the range of calendar dates.
pub const MAX_EPOCH_SECS: i64 = 7_000_000_000_000;

/// Nanoseconds in one second.
pub const NANOS_PER_SEC: u32 = 1_000_000_000;

/// Seconds in one day; an offset from UTC lies strictly inside one day.
pub const SECS_PER_DAY: i32 = 86_400;

/// An instant together with the UTC offset it is shown in.
#[derive(Clone, Copy, Debug, PartialEq, Eq)]
pub struct Timestamp {
    /// Whole seconds since 1970-01-01T00:00:00Z.
    secs: i64,
    /// Nanoseconds past `secs`.
    nanos: u32,
    /// Offset of local time from UTC, in seconds (east is positive).
    offset_secs: i32,
}

/// Whether the three numbers make a timestamp.
pub open spec fn valid_parts(secs: int, nanos: int, offset_secs: int) -> bool {
    &&& -(MAX_EPOCH_SECS as int) <= secs <= MAX_EPOCH_SECS as int
    &&& 0 <= nanos < NANOS_PER_SEC as int
    &&& -(SECS_PER_DAY as int) < offset_secs < SECS_PER_DAY as int
}

/// The RFC 3339 text of an instant in a fixed offset.
pub uninterp spec fn rfc3339_text(secs: int, nanos: int, offset_secs: int) -> Seq<char>;

impl View for Timestamp {
    /// Seconds since the epoch, nanoseconds, and offset in seconds.
    type V = (int, int, int);

    closed spec fn view(&self) -> (int, int, int) {
        (self.secs as int, self.nanos as int, self.offset_secs as int)
    }
}

impl Timestamp {
    #[verifier::type_invariant]
    spec fn wf(&self) -> bool {
        valid_parts(self.secs as int, self.nanos as int, self.offset_secs as int)
    }

    /// The RFC 3339 text of this timestamp.
    pub open spec fn text(&self) -> Seq<char> {
        rfc3339_text(self@.0, self@.1, self@.2)
    }

    /// A timestamp from its parts, or `None` where they are out of range.
    pub fn new(secs: i64, nanos: u32, offset_secs: i32) -> (r: Option<Timestamp>)
        ensures
            r is Some <==> valid_parts(secs as int, nanos as int, offset_secs as int),
            r matches Some(t) ==> t@ == (secs as int, nanos as int, offset_secs as int),
    {
        if -MAX_EPOCH_SECS <= secs && secs <= MAX_EPOCH_SECS && nanos < NANOS_PER_SEC
            && -SECS_PER_DAY < offset_secs && offset_secs < SECS_PER_DAY {
            Some(Timestamp { secs, nanos, offset_secs })
        } else {
            None
        }
    }
}

/// Relies on chrono's `DateTime::from_timestamp`, `FixedOffset::east_opt`,
/// `DateTime::with_timezone` and `DateTime::to_rfc3339`: the text depends on
/// the three numbers alone. The range that a timestamp's invariant allows
/// lies inside the range on which the first two return `Some`.
#[verifier::external_body]
pub(crate) fn format_rfc3339(t: Timestamp) -> (r: String)
    ensures
        r@ == rfc3339_text(t@.0, t@.1, t@.2),
{
    let offset = chrono::FixedOffset::east_opt(t.offset_secs).expect("offset within a day");
    let utc = chrono::DateTime::from_timestamp(t.secs, t.nanos).expect("instant in range");
    utc.with_timezone(&offset).to_rfc3339()
}

} // verus!
