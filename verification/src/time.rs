//! Points in time, parsed with `chrono`.
use vstd::prelude::*;

verus! {

/// A point in time with a fixed offset from UTC, held as plain values.
///
/// `secs` and `nanos` locate the instant (seconds since the Unix epoch and the
/// sub-second nanoseconds), `offset` is the offset of the local time from UTC,
/// in seconds.
#[derive(Clone, Copy, Debug, PartialEq, Eq, Structural)]
pub struct Timestamp {
    pub secs: i64,
    pub nanos: u32,
    pub offset: i32,
}

impl Timestamp {
    /// The plain values of the timestamp, as a tuple.
    pub open spec fn parts(self) -> (i64, u32, i32) {
        (self.secs, self.nanos, self.offset)
    }
}

#[verifier::external_type_specification]
#[verifier::external_body]
pub struct ExParseError(chrono::ParseError);

/// What `chrono` makes of a string read as a relaxed RFC 3339 date and time
/// with an offset (`<chrono::DateTime<FixedOffset> as FromStr>::from_str`):
/// `None` where it refuses the string, else the instant and the offset.
pub uninterp spec fn chrono_rfc3339(s: Seq<char>) -> Option<(i64, u32, i32)>;

/// What `chrono::DateTime::<FixedOffset>::parse_from_str(s, fmt)` makes of `s`
/// read with the strftime-like format `fmt`: `None` where it refuses it, else
/// the instant and the offset.
pub uninterp spec fn chrono_parse_from_str(s: Seq<char>, fmt: Seq<char>) -> Option<(i64, u32, i32)>;

/// Calls `str::parse::<chrono::DateTime<chrono::FixedOffset>>` on `s`.
///
/// Trusted: the contract claims that the call succeeds exactly when
/// `chrono_rfc3339` gives a value for the characters of `s`, and that the
/// instant and offset of the result are that value. It says nothing of which
/// `chrono::ParseError` comes back on failure.
#[verifier::external_body]
pub(crate) fn parse_rfc3339(s: &str) -> (r: Result<Timestamp, chrono::ParseError>)
    ensures
        r is Ok <==> chrono_rfc3339(s@) is Some,
        r matches Ok(t) ==> chrono_rfc3339(s@) == Some(t.parts()),
{
    match s.parse::<chrono::DateTime<chrono::FixedOffset>>() {
        Ok(d) => Ok(Timestamp {
            secs: d.timestamp(),
            nanos: d.timestamp_subsec_nanos(),
            offset: d.offset().local_minus_utc(),
        }),
        Err(e) => Err(e),
    }
}

/// Calls `chrono::DateTime::<chrono::FixedOffset>::parse_from_str(s, fmt)`.
///
/// Trusted: the contract claims that the call succeeds exactly when
/// `chrono_parse_from_str` gives a value for the characters of `s` and `fmt`,
/// and that the instant and offset of the result are that value. It says
/// nothing of which `chrono::ParseError` comes back on failure.
#[verifier::external_body]
pub(crate) fn parse_from_str(s: &str, fmt: &str) -> (r: Result<Timestamp, chrono::ParseError>)
    ensures
        r is Ok <==> chrono_parse_from_str(s@, fmt@) is Some,
        r matches Ok(t) ==> chrono_parse_from_str(s@, fmt@) == Some(t.parts()),
{
    match chrono::DateTime::<chrono::FixedOffset>::parse_from_str(s, fmt) {
        Ok(d) => Ok(Timestamp {
            secs: d.timestamp(),
            nanos: d.timestamp_subsec_nanos(),
            offset: d.offset().local_minus_utc(),
        }),
        Err(e) => Err(e),
    }
}

/// The format of the dates that the CaptainFact API sends without an offset,
/// once `" +0000"` is appended to them.
pub open spec fn api_format() -> Seq<char> {
    "%Y-%m-%dT%H:%M:%S%.6f %z"@
}

/// What a date sent by the API without an offset stands for: the date read in
/// UTC, with six digits of fractional seconds.
pub open spec fn spec_api_datetime(s: Seq<char>) -> Option<(i64, u32, i32)> {
    chrono_parse_from_str(s + " +0000"@, api_format())
}

/// Reads a date that the CaptainFact API sends without an offset
/// (`2019-01-31T12:34:56.123456`) as a UTC date and time.
pub fn parse_api_datetime(s: &str) -> (r: Result<Timestamp, chrono::ParseError>)
    ensures
        r is Ok <==> spec_api_datetime(s@) is Some,
        r matches Ok(t) ==> spec_api_datetime(s@) == Some(t.parts()),
{
    let with_offset = String::from_str(s).concat(" +0000");
    let fmt = "%Y-%m-%dT%H:%M:%S%.6f %z";
    parse_from_str(with_offset.as_str(), fmt)
}

} // verus!
