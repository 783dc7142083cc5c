//! Points in time with a UTC offset, and their RFC 3339 notation.

use vstd::prelude::*;

use time::format_description::well_known::Rfc3339;
use time::{OffsetDateTime, UtcOffset};

verus! {

/// Nanoseconds in a second.
pub const NANOS_PER_SECOND: i128 = 1000000000;

/// The first nanosecond of the calendar: year -9999 starts.
pub const FIRST_NANO: i128 = -377705116800000000000;

/// The last nanosecond of the calendar: year 9999 ends.
pub const LAST_NANO: i128 = 253402300799999999999;

/// The first nanosecond of year 0.
pub const YEAR_ZERO_NANO: i128 = -62167219200000000000;

/// The widest UTC offset, in seconds.
pub const WIDEST_OFFSET: i32 = 93599;

/// A wall-clock reading and the UTC offset it was read at.
///
/// The reading is kept as nanoseconds since 1970-01-01T00:00:00 of the same
/// wall clock; the instant it stands for is that reading less the offset.
#[derive(Debug, Clone, Copy, PartialEq, Eq, Structural)]
pub struct Timestamp {
    local_nanos: i128,
    offset_seconds: i32,
}

impl Timestamp {
    #[verifier::type_invariant]
    spec fn on_the_calendar(self) -> bool {
        Timestamp::fits(self.local_nanos as int, self.offset_seconds as int)
    }

    /// Whether a reading and an offset are within the calendar.
    pub open spec fn fits(local_nanos: int, offset_seconds: int) -> bool {
        &&& FIRST_NANO <= local_nanos <= LAST_NANO
        &&& -WIDEST_OFFSET <= offset_seconds <= WIDEST_OFFSET
    }

    /// The wall-clock reading, in nanoseconds.
    pub closed spec fn local(self) -> int {
        self.local_nanos as int
    }

    /// The UTC offset, in seconds.
    pub closed spec fn offset(self) -> int {
        self.offset_seconds as int
    }

    /// The instant: nanoseconds since 1970-01-01T00:00:00Z.
    pub open spec fn instant(self) -> int {
        self.local() - self.offset() * NANOS_PER_SECOND
    }

    /// Whether RFC 3339 can write the timestamp: a four-digit year and an
    /// offset of whole minutes below a day.
    pub open spec fn writable(self) -> bool {
        &&& YEAR_ZERO_NANO <= self.local() <= LAST_NANO
        &&& self.offset() % 60 == 0
        &&& -86400 < self.offset() < 86400
    }

    /// The timestamp with the given reading and offset, if it is within the
    /// calendar.
    pub fn new(local_nanos: i128, offset_seconds: i32) -> (r: Option<Timestamp>)
        ensures
            match r {
                Some(t) => Timestamp::fits(local_nanos as int, offset_seconds as int) && t.local()
                    == local_nanos && t.offset() == offset_seconds,
                None => !Timestamp::fits(local_nanos as int, offset_seconds as int),
            },
    {
        if FIRST_NANO <= local_nanos && local_nanos <= LAST_NANO && -WIDEST_OFFSET
            <= offset_seconds && offset_seconds <= WIDEST_OFFSET {
            Some(Timestamp { local_nanos, offset_seconds })
        } else {
            None
        }
    }

    /// The wall-clock reading, in nanoseconds.
    pub fn local_nanos(&self) -> (r: i128)
        ensures
            r == self.local(),
    {
        self.local_nanos
    }

    /// The UTC offset, in seconds.
    pub fn offset_seconds(&self) -> (r: i32)
        ensures
            r == self.offset(),
    {
        self.offset_seconds
    }

    /// Whether this instant is at or after another.
    pub fn at_or_after(&self, other: &Timestamp) -> (r: bool)
        ensures
            r == (self.instant() >= other.instant()),
    {
        proof {
            use_type_invariant(self);
            use_type_invariant(other);
        }
        let a: i128 = self.local_nanos - (self.offset_seconds as i128) * NANOS_PER_SECOND;
        let b: i128 = other.local_nanos - (other.offset_seconds as i128) * NANOS_PER_SECOND;
        a >= b
    }

    /// Whether `seconds` later is still within the calendar.
    pub open spec fn can_add(self, seconds: int) -> bool {
        FIRST_NANO <= self.local() + seconds * NANOS_PER_SECOND <= LAST_NANO
    }

    /// The timestamp `seconds` later, at the same offset.
    pub fn plus_seconds(&self, seconds: i64) -> (r: Timestamp)
        requires
            self.can_add(seconds as int),
        ensures
            r.local() == self.local() + seconds * NANOS_PER_SECOND,
            r.offset() == self.offset(),
            r.instant() == self.instant() + seconds * NANOS_PER_SECOND,
    {
        proof {
            use_type_invariant(self);
        }
        Timestamp {
            local_nanos: self.local_nanos + (seconds as i128) * NANOS_PER_SECOND,
            offset_seconds: self.offset_seconds,
        }
    }
}

/// The RFC 3339 notation of a wall-clock reading at an offset, as
/// `OffsetDateTime::format` writes it.
pub uninterp spec fn rfc3339_text(local_nanos: i128, offset_seconds: i32) -> Seq<char>;

/// The wall-clock reading and offset that a text stands for in RFC 3339
/// notation, as `OffsetDateTime::parse` reads it; `None` where it is not
/// RFC 3339.
pub uninterp spec fn rfc3339_reading(text: Seq<char>) -> Option<(i128, i32)>;

/// Writes a reading and an offset in RFC 3339 notation with
/// `time::OffsetDateTime::format`.
///
/// Trusted: the text is a function of the two numbers, formatting succeeds
/// for a year of four digits and an offset of whole minutes below a day, and
/// `OffsetDateTime::parse` reads the same reading and offset back.
#[verifier::external_body]
fn format_reading(local_nanos: i128, offset_seconds: i32) -> (r: String)
    requires
        YEAR_ZERO_NANO <= local_nanos <= LAST_NANO,
        offset_seconds % 60 == 0,
        -86400 < offset_seconds < 86400,
    ensures
        r@ == rfc3339_text(local_nanos, offset_seconds),
        rfc3339_reading(r@) == Some((local_nanos, offset_seconds)),
{
    OffsetDateTime::from_unix_timestamp_nanos(local_nanos)
        .expect("the reading is within the calendar")
        .replace_offset(UtcOffset::from_whole_seconds(offset_seconds).expect("the offset is narrow"))
        .format(&Rfc3339)
        .expect("a four-digit year and a whole-minute offset always format")
}

/// Reads a text in RFC 3339 notation with `time::OffsetDateTime::parse`.
///
/// Trusted: the result is a function of the text, and what is read is within
/// the calendar.
#[verifier::external_body]
fn parse_reading(text: &str) -> (r: Option<(i128, i32)>)
    ensures
        r == rfc3339_reading(text@),
        r matches Some((local_nanos, offset_seconds)) ==> Timestamp::fits(
            local_nanos as int,
            offset_seconds as int,
        ),
{
    let parsed = OffsetDateTime::parse(text, &Rfc3339).ok()?;
    let local_nanos: i128 = parsed.replace_offset(UtcOffset::UTC).unix_timestamp_nanos();
    Some((local_nanos, parsed.offset().whole_seconds()))
}

/// The RFC 3339 notation of a timestamp.
pub open spec fn rfc3339_of(at: Timestamp) -> Seq<char> {
    rfc3339_text(at.local() as i128, at.offset() as i32)
}

/// Whether `at` is what `text` stands for in RFC 3339 notation.
pub open spec fn reads_as(text: Seq<char>, at: Timestamp) -> bool {
    rfc3339_reading(text) == Some((at.local() as i128, at.offset() as i32))
}

/// A text stands for at most one timestamp.
pub proof fn law_readings_are_unique(text: Seq<char>, a: Timestamp, b: Timestamp)
    requires
        reads_as(text, a),
        reads_as(text, b),
    ensures
        a == b,
{
}

/// The RFC 3339 notation of a timestamp.
pub fn rfc3339(at: &Timestamp) -> (r: String)
    requires
        at.writable(),
    ensures
        r@ == rfc3339_of(*at),
        reads_as(r@, *at),
{
    format_reading(at.local_nanos, at.offset_seconds)
}

/// The timestamp that a text stands for in RFC 3339 notation.
pub fn parse_rfc3339(text: &str) -> (r: Option<Timestamp>)
    ensures
        match r {
            Some(at) => reads_as(text@, at),
            None => rfc3339_reading(text@) is None,
        },
{
    match parse_reading(text) {
        Some((local_nanos, offset_seconds)) => Timestamp::new(local_nanos, offset_seconds),
        None => None,
    }
}

} // verus!
