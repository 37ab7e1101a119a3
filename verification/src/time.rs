use vstd::prelude::*;
use vstd::string::*;
use crate::decode::{mismatch, mismatch_error, DecodeError, DecodeErrorView, FromJson, Shape};
use crate::json::{Json, JsonView};

verus! {

/// A point in time, counted from 1970-01-01T00:00:00Z without leap seconds.
#[derive(Clone, Copy, Debug, PartialEq, Eq, Structural)]
pub struct Timestamp {
    /// Whole seconds since the epoch; negative before it.
    pub seconds: i64,
    /// Nanoseconds since the last second boundary. Within a leap second the
    /// count goes on past 999,999,999.
    pub nanos: u32,
}

/// `chrono::format::ParseError`: carried through, never read.
#[verifier::external_type_specification]
#[verifier::external_body]
pub struct ExParseError(chrono::format::ParseError);

/// What `chrono::DateTime::parse_from_rfc3339` makes of a text: the instant
/// of the date and time it returns, as `DateTime::timestamp` and
/// `DateTime::timestamp_subsec_nanos` give it, or `None` where it returns an
/// error.
pub uninterp spec fn rfc3339_instant(text: Seq<char>) -> Option<Timestamp>;

/// Calls `chrono::DateTime::parse_from_rfc3339` and reads the instant off the
/// result. Trusted: the result is what `rfc3339_instant` names, and nothing
/// more is claimed of it.
#[verifier::external_body]
fn read_rfc3339(text: &str) -> (r: Result<Timestamp, chrono::format::ParseError>)
    ensures
        match r {
            Ok(t) => rfc3339_instant(text@) == Some(t),
            Err(_) => rfc3339_instant(text@) is None,
        },
{
    match chrono::DateTime::parse_from_rfc3339(text) {
        Ok(t) => Ok(Timestamp { seconds: t.timestamp(), nanos: t.timestamp_subsec_nanos() }),
        Err(e) => Err(e),
    }
}

/// What reading the text `value`, found under the key `field`, yields, given
/// the instant that the text denotes.
pub open spec fn instant_or_failure(instant: Option<Timestamp>, value: Seq<char>, field: Seq<char>) -> Result<Timestamp, DecodeErrorView> {
    match instant {
        Some(t) => Ok(t),
        None => Err(DecodeErrorView::InvalidTimestamp { field, value }),
    }
}

impl Timestamp {
    /// Reads an RFC 3339 date and time, such as `2023-05-13T21:45:36.828Z`.
    pub fn parse(text: &str) -> (r: Option<Timestamp>)
        ensures
            r == rfc3339_instant(text@),
    {
        match read_rfc3339(text) {
            Ok(t) => Some(t),
            Err(_) => None,
        }
    }

    /// Turns the outcome of reading the text `value`, found under the key
    /// `field`, into a decoder's result.
    pub fn checked(instant: Option<Timestamp>, value: &str, field: &str) -> (r: Result<Timestamp, DecodeError>)
        ensures
            match r {
                Ok(t) => instant_or_failure(instant, value@, field@) == Ok::<Timestamp, DecodeErrorView>(t),
                Err(e) => instant_or_failure(instant, value@, field@) == Err::<Timestamp, DecodeErrorView>(e@),
            },
    {
        match instant {
            Some(t) => Ok(t),
            None => Err(DecodeError::InvalidTimestamp { field: field.to_owned(), value: value.to_owned() }),
        }
    }
}

impl FromJson for Timestamp {
    type Model = Timestamp;

    open spec fn model(&self) -> Timestamp {
        *self
    }

    open spec fn parsed(j: JsonView, field: Seq<char>) -> Result<Timestamp, DecodeErrorView> {
        match j {
            JsonView::Str(s) => instant_or_failure(rfc3339_instant(s), s, field),
            _ => Err(mismatch(j, field, Shape::Text)),
        }
    }

    fn from_json(j: &Json, field: &str) -> (r: Result<Timestamp, DecodeError>) {
        match j {
            Json::Str(s) => Timestamp::checked(Timestamp::parse(s.as_str()), s.as_str(), field),
            _ => Err(mismatch_error(j, field, Shape::Text)),
        }
    }
}

/// Decodes a timestamp: a JSON string that holds an RFC 3339 date and time.
pub fn parse_date_time(j: &Json, field: &str) -> (r: Result<Timestamp, DecodeError>)
    ensures
        match r {
            Ok(t) => Timestamp::parsed(j@, field@) == Ok::<Timestamp, DecodeErrorView>(t),
            Err(e) => Timestamp::parsed(j@, field@) == Err::<Timestamp, DecodeErrorView>(e@),
        },
{
    Timestamp::from_json(j, field)
}

/// Decodes a timestamp that may be missing: `null` is no value, anything
/// else must be a timestamp.
pub fn parse_optional_date_time(j: &Json, field: &str) -> (r: Result<Option<Timestamp>, DecodeError>)
    ensures
        match r {
            Ok(t) => Option::<Timestamp>::parsed(j@, field@) == Ok::<Option<Timestamp>, DecodeErrorView>(t),
            Err(e) => Option::<Timestamp>::parsed(j@, field@) == Err::<Option<Timestamp>, DecodeErrorView>(e@),
        },
{
    match j {
        Json::Null => Ok(None),
        _ => match parse_date_time(j, field) {
            Ok(t) => Ok(Some(t)),
            Err(e) => Err(e),
        },
    }
}

} // verus!
