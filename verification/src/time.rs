use vstd::prelude::*;

verus! {

/// What `chrono` reads from a text as a `DateTime<Utc>`: the seconds since
/// the start of 1970 and the nanoseconds into that second, or `None` where
/// it rejects the text.
pub uninterp spec fn datetime_parse(text: Seq<char>) -> Option<(i64, u32)>;

/// `str::parse` to `chrono::DateTime<chrono::Utc>`, then `timestamp` and
/// `timestamp_subsec_nanos` of the result: the pair is what the parser read
/// from `text`, absent exactly when the parser rejected it.
#[verifier::external_body]
fn parse_datetime(text: &str) -> (r: Option<(i64, u32)>)
    ensures
        r == datetime_parse(text@),
{
    match text.parse::<chrono::DateTime<chrono::Utc>>() {
        Ok(t) => Some((t.timestamp(), t.timestamp_subsec_nanos())),
        Err(_) => None,
    }
}

/// A point in time: seconds since the start of 1970 in UTC, and the
/// nanoseconds into that second.
#[derive(Clone, Copy, Debug, PartialEq, Eq, Structural)]
pub struct Timestamp {
    pub secs: i64,
    pub nanos: u32,
}

impl DeepView for Timestamp {
    type V = Timestamp;

    open spec fn deep_view(&self) -> Timestamp {
        *self
    }
}

/// The point in time that a text names.
pub open spec fn timestamp_of(text: Seq<char>) -> Option<Timestamp> {
    match datetime_parse(text) {
        Some(t) => Some(Timestamp { secs: t.0, nanos: t.1 }),
        None => None,
    }
}

impl Timestamp {
    /// Reads a date and time with offset, as in `2021-03-01T13:42:43Z`.
    pub fn parse(text: &str) -> (r: Option<Timestamp>)
        ensures
            r == timestamp_of(text@),
    {
        match parse_datetime(text) {
            Some(t) => Some(Timestamp { secs: t.0, nanos: t.1 }),
            None => None,
        }
    }
}

} // verus!
