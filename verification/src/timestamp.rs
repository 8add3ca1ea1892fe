//! Instants with a fixed offset from UTC.

use crate::error::DecodeError;
use chrono::{DateTime, FixedOffset, ParseError};
use vstd::prelude::*;
use vstd::std_specs::cmp::PartialEqSpecImpl;
use vstd::string::StrSliceExecFns;

verus! {

/// chrono's error for text that is no date and time. Nothing is known of a
/// value of it but that parsing failed.
#[verifier::external_type_specification]
#[verifier::external_body]
pub struct ExParseError(ParseError);

/// What `chrono::DateTime::parse_from_rfc3339` makes of a text: nothing where it
/// refuses the text, else the seconds since the epoch, the nanoseconds since
/// the last whole second and the offset in seconds of the date and time read.
pub uninterp spec fn rfc3339_parts(text: Seq<char>) -> Option<(int, int, int)>;

/// What chrono's `Display` writes for the `DateTime<FixedOffset>` with the
/// given seconds since the epoch, nanoseconds and offset in seconds: the local
/// date, the local time and the offset, each parted from the next by a space.
pub uninterp spec fn display_text(seconds: int, nanos: int, offset: int) -> Seq<char>;

/// The earliest second that RFC 3339 text can denote:
/// `0000-01-01T00:00:00+23:59`.
pub const MIN_SECONDS: i64 = -62_167_305_540;

/// The latest second that RFC 3339 text can denote:
/// `9999-12-31T23:59:59-23:59`.
pub const MAX_SECONDS: i64 = 253_402_387_139;

/// One more than the largest value of the nanosecond part. Values from one
/// thousand million upwards stand for a leap second.
pub const NANOS_LIMIT: u32 = 2_000_000_000;

/// The nanosecond part from which on a leap second is meant.
pub const LEAP_NANOS: u32 = 1_000_000_000;

/// The offset from UTC stays below one day in either direction.
pub const OFFSET_LIMIT: i32 = 86_400;

/// The mathematical value of a [`Timestamp`].
pub struct Moment {
    /// Whole seconds since 1970-01-01T00:00:00 UTC, leap seconds not counted.
    pub seconds: int,
    /// Nanoseconds since the last whole second.
    pub nanos: int,
    /// Seconds that local time is ahead of UTC.
    pub offset: int,
}

impl Moment {
    /// The moment with the given parts.
    pub open spec fn of(seconds: int, nanos: int, offset: int) -> Moment {
        Moment { seconds, nanos, offset }
    }

    /// Whether the three parts denote an instant that RFC 3339 text can
    /// denote.
    pub open spec fn in_range(self) -> bool {
        &&& MIN_SECONDS <= self.seconds <= MAX_SECONDS
        &&& 0 <= self.nanos < NANOS_LIMIT
        &&& self.nanos >= LEAP_NANOS ==> self.seconds % 60 == 59
        &&& -OFFSET_LIMIT < self.offset < OFFSET_LIMIT
    }

    /// Whether this instant is `other` or comes before it. The offset plays
    /// no part: two moments are compared as points in time.
    pub open spec fn at_or_before(self, other: Moment) -> bool {
        self.seconds < other.seconds || (self.seconds == other.seconds && self.nanos
            <= other.nanos)
    }
}

/// An instant together with the offset from UTC it was written with.
#[derive(Debug, Clone, Copy)]
pub struct Timestamp {
    secs: i64,
    nanos: u32,
    offset: i32,
}

impl View for Timestamp {
    type V = Moment;

    closed spec fn view(&self) -> Moment {
        Moment { seconds: self.secs as int, nanos: self.nanos as int, offset: self.offset as int }
    }
}

impl PartialEq for Timestamp {
    /// Two timestamps are equal where they denote the same instant, whatever
    /// their offsets.
    fn eq(&self, other: &Timestamp) -> (same: bool) {
        self.secs == other.secs && self.nanos == other.nanos
    }
}

impl PartialEqSpecImpl for Timestamp {
    open spec fn obeys_eq_spec() -> bool {
        true
    }

    open spec fn eq_spec(&self, other: &Timestamp) -> bool {
        self@.seconds == other@.seconds && self@.nanos == other@.nanos
    }
}

impl Timestamp {
    #[verifier::type_invariant]
    spec fn within_range(self) -> bool {
        self@.in_range()
    }

    /// Makes a timestamp from its parts. Parts out of range are refused with
    /// [`DecodeError::TimestampOutOfRange`].
    pub fn new(secs: i64, nanos: u32, offset: i32) -> (made: Result<Timestamp, DecodeError>)
        ensures
            made is Ok <==> Moment::of(secs as int, nanos as int, offset as int).in_range(),
            made matches Ok(t) ==> t@ == Moment::of(secs as int, nanos as int, offset as int),
            made matches Err(e) ==> e == DecodeError::TimestampOutOfRange,
    {
        if secs < MIN_SECONDS || secs > MAX_SECONDS {
            return Err(DecodeError::TimestampOutOfRange);
        }
        if nanos >= NANOS_LIMIT || offset <= -OFFSET_LIMIT || offset >= OFFSET_LIMIT {
            return Err(DecodeError::TimestampOutOfRange);
        }
        if nanos >= LEAP_NANOS && (secs - MIN_SECONDS) % 60 != 59 {
            return Err(DecodeError::TimestampOutOfRange);
        }
        Ok(Timestamp { secs, nanos, offset })
    }

    /// Whole seconds since 1970-01-01T00:00:00 UTC.
    pub fn timestamp(&self) -> (secs: i64)
        ensures
            secs == self@.seconds,
    {
        self.secs
    }

    /// Nanoseconds since the last whole second.
    pub fn timestamp_subsec_nanos(&self) -> (nanos: u32)
        ensures
            nanos == self@.nanos,
    {
        self.nanos
    }

    /// Seconds that local time is ahead of UTC.
    pub fn local_minus_utc(&self) -> (offset: i32)
        ensures
            offset == self@.offset,
    {
        self.offset
    }

    /// The date, the time and the offset as text, as chrono displays them.
    pub fn to_text(&self) -> (text: String)
        ensures
            text@ == display_text(self@.seconds, self@.nanos, self@.offset),
    {
        proof {
            use_type_invariant(self);
        }
        format_instant(self.secs, self.nanos, self.offset)
    }

    /// Whether this instant is `other` or comes before it.
    pub fn at_or_before(&self, other: &Timestamp) -> (earlier: bool)
        ensures
            earlier == self@.at_or_before(other@),
    {
        self.secs < other.secs || (self.secs == other.secs && self.nanos <= other.nanos)
    }
}

/// Whether the text ends in the letter that stands for UTC in place of a
/// numeric offset.
pub open spec fn zulu_suffix(text: Seq<char>) -> bool {
    text.len() > 0 && (text.last() == 'Z' || text.last() == 'z')
}

/// Tells whether the text ends in `Z` or `z`.
pub fn ends_with_zulu(s: &str) -> (zulu: bool)
    ensures
        zulu == zulu_suffix(s@),
{
    let n = s.unicode_len();
    if n == 0 {
        false
    } else {
        let last = s.get_char(n - 1);
        last == 'Z' || last == 'z'
    }
}

/// Why the text is no timestamp of a response, if it is none: chrono does
/// not read it as an RFC 3339 date and time, its offset is the letter for UTC
/// rather than a number, or the parts read are out of range.
pub open spec fn decode_fault(text: Seq<char>) -> Option<DecodeError> {
    match rfc3339_parts(text) {
        None => Some(DecodeError::MalformedTimestamp),
        Some((seconds, nanos, offset)) => if zulu_suffix(text) {
            Some(DecodeError::MalformedTimestamp)
        } else if !Moment::of(seconds, nanos, offset).in_range() {
            Some(DecodeError::TimestampOutOfRange)
        } else {
            None
        },
    }
}

/// Decodes the text of a timestamp field: an RFC 3339 date and time with a
/// numeric offset, which is kept.
pub fn deserialize(s: &str) -> (decoded: Result<Timestamp, DecodeError>)
    ensures
        match decoded {
            Ok(t) => decode_fault(s@) is None && rfc3339_parts(s@) == Some(
                (t@.seconds, t@.nanos, t@.offset),
            ),
            Err(e) => decode_fault(s@) == Some(e),
        },
{
    match parse_rfc3339(s) {
        Err(_) => Err(DecodeError::MalformedTimestamp),
        Ok((secs, nanos, offset)) => {
            if ends_with_zulu(s) {
                Err(DecodeError::MalformedTimestamp)
            } else {
                Timestamp::new(secs, nanos, offset)
            }
        },
    }
}

/// Calls `chrono::DateTime::parse_from_rfc3339` and takes the result apart with
/// `timestamp`, `timestamp_subsec_nanos` and `FixedOffset::local_minus_utc`. The
/// contract claims that the outcome is a function of the text alone.
#[verifier::external_body]
fn parse_rfc3339(s: &str) -> (parsed: Result<(i64, u32, i32), ParseError>)
    ensures
        match parsed {
            Ok((secs, nanos, offset)) => rfc3339_parts(s@) == Some(
                (secs as int, nanos as int, offset as int),
            ),
            Err(_) => rfc3339_parts(s@) is None,
        },
{
    let read = DateTime::parse_from_rfc3339(s)?;
    Ok((read.timestamp(), read.timestamp_subsec_nanos(), read.offset().local_minus_utc()))
}

/// Builds the `DateTime<FixedOffset>` of the given parts with
/// `DateTime::from_timestamp`, `FixedOffset::east_opt` and `with_timezone`, and
/// returns what its `Display` writes. chrono makes a value of every moment in
/// range, so neither `unwrap` fails; the contract claims that the text is a
/// function of the three parts alone.
#[verifier::external_body]
fn format_instant(secs: i64, nanos: u32, offset: i32) -> (text: String)
    requires
        Moment::of(secs as int, nanos as int, offset as int).in_range(),
    ensures
        text@ == display_text(secs as int, nanos as int, offset as int),
{
    let zone = FixedOffset::east_opt(offset).unwrap();
    DateTime::from_timestamp(secs, nanos).unwrap().with_timezone(&zone).to_string()
}

} // verus!
