//! A point in time in UTC, as the `chrono` crate holds it: whole seconds
//! since the Unix epoch and the nanoseconds within the second.
//!
//! Reading the clock, parsing and printing are done by `chrono`; the texts
//! and the parse results carry names, so that contracts can speak of them.

use vstd::prelude::*;

verus! {

/// The first second that can be held: midnight of January 1 of the year
/// -262143.
pub const MIN_SECONDS: i64 = -8_334_601_228_800;

/// The last second that can be held: the last second of December 31 of the
/// year 262142.
pub const MAX_SECONDS: i64 = 8_210_266_876_799;

/// The RFC 3339 text that `chrono` writes for a point in time.
pub uninterp spec fn rfc3339_text(seconds: i64, nanos: u32) -> Seq<char>;

/// The text that `chrono` displays for a point in time.
pub uninterp spec fn datetime_text(seconds: i64, nanos: u32) -> Seq<char>;

/// The point in time that `chrono` reads from a text, as seconds and
/// nanoseconds, or else the message of its error.
pub uninterp spec fn datetime_parse(s: Seq<char>) -> Result<(i64, u32), Seq<char>>;

/// Whether seconds and nanoseconds make a point in time. A nanosecond count
/// of a billion or more stands for a leap second and is only found in the
/// last second of a minute.
pub open spec fn timestamp_in_range(seconds: i64, nanos: u32) -> bool {
    &&& MIN_SECONDS <= seconds <= MAX_SECONDS
    &&& nanos < 2_000_000_000
    &&& nanos >= 1_000_000_000 ==> seconds as int % 60 == 59
}

/// A point in time in UTC.
#[derive(Debug, Clone, Copy, PartialEq, Eq, PartialOrd, Ord)]
pub struct Timestamp {
    seconds: i64,
    nanos: u32,
}

impl View for Timestamp {
    type V = (i64, u32);

    /// Seconds since the epoch and nanoseconds within the second.
    closed spec fn view(&self) -> (i64, u32) {
        (self.seconds, self.nanos)
    }
}

/// The value of an optional point in time.
pub open spec fn optional_time(t: Option<Timestamp>) -> Option<(i64, u32)> {
    match t {
        Some(t) => Some(t@),
        None => None,
    }
}

impl Timestamp {
    /// What holds of every value of the type.
    #[verifier::type_invariant]
    pub open spec fn inv(self) -> bool {
        self.wf()
    }

    /// Seconds and nanoseconds are within the limits.
    pub open spec fn wf(self) -> bool {
        timestamp_in_range(self@.0, self@.1)
    }

    /// The point in time with the given seconds and nanoseconds, if both are
    /// within the limits.
    pub fn from_parts(seconds: i64, nanos: u32) -> (r: Option<Self>)
        ensures
            timestamp_in_range(seconds, nanos) <==> r is Some,
            r matches Some(t) ==> t@ == (seconds, nanos) && t.wf(),
    {
        if seconds < MIN_SECONDS || seconds > MAX_SECONDS || nanos >= 2_000_000_000 {
            return None;
        }
        // The first second is the start of a minute, so the offset from it
        // has the same remainder as the second itself.
        let offset: i64 = seconds - MIN_SECONDS;
        if nanos >= 1_000_000_000 && offset % 60 != 59 {
            return None;
        }
        Some(Self { seconds, nanos })
    }

    /// Seconds since the Unix epoch.
    pub fn timestamp(&self) -> (r: i64)
        ensures
            r == self@.0,
    {
        self.seconds
    }

    /// Nanoseconds within the second.
    pub fn timestamp_subsec_nanos(&self) -> (r: u32)
        ensures
            r == self@.1,
    {
        self.nanos
    }

    /// The time of the call.
    pub fn now() -> (r: Self)
        ensures
            r.wf(),
    {
        Self::read_clock()
    }

    /// The RFC 3339 text of the point in time.
    pub fn to_rfc3339(&self) -> (r: String)
        ensures
            r@ == rfc3339_text(self@.0, self@.1),
    {
        proof {
            use_type_invariant(self);
        }
        self.write_rfc3339()
    }

    /// The displayed text of the point in time.
    pub fn to_string(&self) -> (r: String)
        ensures
            r@ == datetime_text(self@.0, self@.1),
    {
        proof {
            use_type_invariant(self);
        }
        self.display()
    }

    /// Reads a point in time from a text in a relaxed form of RFC 3339, or
    /// gives the message of the parser.
    pub fn from_str(s: &str) -> (r: Result<Self, String>)
        ensures
            match r {
                Ok(t) => datetime_parse(s@) == Ok::<(i64, u32), Seq<char>>(t@) && t.wf(),
                Err(e) => datetime_parse(s@) == Err::<(i64, u32), Seq<char>>(e@),
            },
    {
        Self::parse(s)
    }

    /// Reads the clock with `chrono::Utc::now`. The result depends on the
    /// time of the call, so nothing is promised of it but that it is a point
    /// in time that `chrono` can hold.
    #[verifier::external_body]
    fn read_clock() -> (r: Self)
        ensures
            r.wf(),
    {
        let t = chrono::Utc::now();
        Self { seconds: t.timestamp(), nanos: t.timestamp_subsec_nanos() }
    }

    /// Writes the point in time with `chrono::DateTime::to_rfc3339`; the
    /// result is the named one.
    #[verifier::external_body]
    fn write_rfc3339(&self) -> (r: String)
        requires
            self.wf(),
        ensures
            r@ == rfc3339_text(self@.0, self@.1),
    {
        chrono::DateTime::from_timestamp(self.seconds, self.nanos).unwrap_or_default().to_rfc3339()
    }

    /// Writes the point in time with the `Display` impl of
    /// `chrono::DateTime<Utc>`; the result is the named one.
    #[verifier::external_body]
    fn display(&self) -> (r: String)
        requires
            self.wf(),
        ensures
            r@ == datetime_text(self@.0, self@.1),
    {
        chrono::DateTime::from_timestamp(self.seconds, self.nanos).unwrap_or_default().to_string()
    }

    /// Reads a point in time with the `FromStr` impl of
    /// `chrono::DateTime<Utc>`, which accepts a relaxed form of RFC 3339;
    /// the result, or the message of the error, is the named one.
    #[verifier::external_body]
    fn parse(s: &str) -> (r: Result<Self, String>)
        ensures
            match r {
                Ok(t) => datetime_parse(s@) == Ok::<(i64, u32), Seq<char>>(t@) && t.wf(),
                Err(e) => datetime_parse(s@) == Err::<(i64, u32), Seq<char>>(e@),
            },
    {
        match s.parse::<chrono::DateTime<chrono::Utc>>() {
            Ok(t) => Ok(Self { seconds: t.timestamp(), nanos: t.timestamp_subsec_nanos() }),
            Err(e) => Err(e.to_string()),
        }
    }
}

} // verus!
