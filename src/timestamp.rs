//! An instant with the UTC offset it was recorded in, and its two textual
//! renderings.
use vstd::prelude::*;

verus! {

/// Seconds from the Unix epoch to 0000-01-01T00:00:00Z.
pub const YEAR_ZERO_START: i64 = -62167219200;

/// Seconds from the Unix epoch to 9999-12-31T23:59:59Z.
pub const YEAR_9999_END: i64 = 253402300799;

/// Seconds in a day.
pub const DAY_SECONDS: i32 = 86400;

/// Whether these parts make a timestamp: the nanoseconds are less than a
/// second, the offset is a whole number of minutes of less than a day, and
/// both the UTC and the local date fall in the years 0 to 9999.
pub open spec fn parts_wf(unix_seconds: i64, nanosecond: u32, offset_seconds: i32) -> bool {
    &&& nanosecond < 1_000_000_000
    &&& offset_seconds % 60 == 0
    &&& -DAY_SECONDS < offset_seconds < DAY_SECONDS
    &&& YEAR_ZERO_START <= unix_seconds <= YEAR_9999_END
    &&& YEAR_ZERO_START <= unix_seconds + offset_seconds <= YEAR_9999_END
}

/// An instant: whole seconds since the Unix epoch, the nanoseconds within that
/// second, and the offset from UTC, in seconds, that it was recorded in.
#[derive(Clone, Copy, Debug, PartialEq, Eq, Structural)]
pub struct Timestamp {
    unix_seconds: i64,
    nanosecond: u32,
    offset_seconds: i32,
}

impl Timestamp {
    /// Whole seconds since the Unix epoch.
    pub closed spec fn spec_unix_seconds(&self) -> i64 {
        self.unix_seconds
    }

    /// Nanoseconds within the second.
    pub closed spec fn spec_nanosecond(&self) -> u32 {
        self.nanosecond
    }

    /// The offset from UTC, in seconds.
    pub closed spec fn spec_offset_seconds(&self) -> i32 {
        self.offset_seconds
    }

    #[verifier::type_invariant]
    spec fn inv(&self) -> bool {
        self.wf()
    }

    /// Whole seconds since the Unix epoch.
    pub fn unix_seconds(&self) -> (r: i64)
        ensures
            r == self.spec_unix_seconds(),
    {
        self.unix_seconds
    }

    /// Nanoseconds within the second.
    pub fn nanosecond(&self) -> (r: u32)
        ensures
            r == self.spec_nanosecond(),
    {
        self.nanosecond
    }

    /// The offset from UTC, in seconds.
    pub fn offset_seconds(&self) -> (r: i32)
        ensures
            r == self.spec_offset_seconds(),
    {
        self.offset_seconds
    }

    /// Well-formedness: the parts make a timestamp; every value has it.
    pub open spec fn wf(&self) -> bool {
        parts_wf(self.spec_unix_seconds(), self.spec_nanosecond(), self.spec_offset_seconds())
    }

    /// Builds a timestamp from its parts, or `None` where they do not make a
    /// well-formed one.
    pub fn new(unix_seconds: i64, nanosecond: u32, offset_seconds: i32) -> (r: Option<Timestamp>)
        ensures
            r is Some <==> parts_wf(unix_seconds, nanosecond, offset_seconds),
            r matches Some(t) ==> t.spec_unix_seconds() == unix_seconds && t.spec_nanosecond()
                == nanosecond && t.spec_offset_seconds() == offset_seconds,
    {
        if nanosecond >= 1_000_000_000 || offset_seconds % 60 != 0 || offset_seconds <= -DAY_SECONDS
            || offset_seconds >= DAY_SECONDS || unix_seconds < YEAR_ZERO_START || unix_seconds
            > YEAR_9999_END {
            return None;
        }
        let local = unix_seconds as i128 + offset_seconds as i128;
        if local < YEAR_ZERO_START as i128 || local > YEAR_9999_END as i128 {
            return None;
        }
        Some(Timestamp { unix_seconds, nanosecond, offset_seconds })
    }
}

/// What `time` renders in RFC 3339 for the instant with these parts.
pub uninterp spec fn rfc3339_text(unix_seconds: i64, nanosecond: u32, offset_seconds: i32) -> Seq<
    char,
>;

/// What `time` renders for the instant at these Unix seconds, in UTC, under the
/// description `[weekday repr:short], [day] [month repr:short] [year]
/// [hour]:[minute]:[second] GMT`.
pub uninterp spec fn rfc1123_text(unix_seconds: i64) -> Seq<char>;

/// Relies on `time::OffsetDateTime::format` with `Rfc3339`, which fails only
/// for a year outside 0 to 9999, an offset of a day or more, or an offset with
/// seconds, all of which `wf` rules out.
#[verifier::external_body]
fn format_rfc3339(t: Timestamp) -> (r: String)
    requires
        t.wf(),
    ensures
        r@ == rfc3339_text(t.spec_unix_seconds(), t.spec_nanosecond(), t.spec_offset_seconds()),
{
    let utc = time::OffsetDateTime::from_unix_timestamp(t.unix_seconds).expect("in range");
    let offset = time::UtcOffset::from_whole_seconds(t.offset_seconds).expect("in range");
    utc.replace_nanosecond(t.nanosecond).expect("in range").to_offset(offset).format(
        &time::format_description::well_known::Rfc3339,
    ).expect("in range")
}

/// Relies on `time::OffsetDateTime::format` with a format description that
/// names every component of a UTC date and time, which cannot fail.
#[verifier::external_body]
fn format_rfc1123(unix_seconds: i64) -> (r: String)
    requires
        YEAR_ZERO_START <= unix_seconds <= YEAR_9999_END,
    ensures
        r@ == rfc1123_text(unix_seconds),
{
    let description = time::format_description::parse(
        "[weekday repr:short], [day] [month repr:short] [year] [hour]:[minute]:[second] GMT",
    ).expect("a valid description");
    time::OffsetDateTime::from_unix_timestamp(unix_seconds).expect("in range").format(
        &description,
    ).expect("all components present")
}

/// Renders a creation timestamp as a complete date and time with its offset.
pub fn format_creationdate(dt: Timestamp) -> (r: String)
    ensures
        r@ == rfc3339_text(dt.spec_unix_seconds(), dt.spec_nanosecond(), dt.spec_offset_seconds()),
{
    proof {
        use_type_invariant(&dt);
    }
    format_rfc3339(dt)
}

/// Renders a modification timestamp in UTC with abbreviated weekday and month
/// names; it depends on the instant's whole seconds alone.
pub fn format_modifieddate(dt: Timestamp) -> (r: String)
    ensures
        r@ == rfc1123_text(dt.spec_unix_seconds()),
{
    proof {
        use_type_invariant(&dt);
    }
    format_rfc1123(dt.unix_seconds)
}

} // verus!
