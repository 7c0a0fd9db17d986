//! Instants written as calendar dates. The notations are those of the
//! `time` and `fiberplane` crates; this module names what they write and
//! leaves the writing to them.
use vstd::prelude::*;
use crate::db::models::{Timestamp, FIRST_PRINTABLE_NANOS, END_PRINTABLE_NANOS};

verus! {

/// Nanoseconds in six hours.
pub const SIX_HOURS_NANOS: i128 = 21_600_000_000_000;

/// The RFC 3339 notation of the instant `unix_nanos`, in UTC.
pub uninterp spec fn rfc3339_text(unix_nanos: int) -> Seq<char>;

/// The plain notation of the instant `unix_nanos`: date, time and offset,
/// separated by spaces.
pub uninterp spec fn date_time_text(unix_nanos: int) -> Seq<char>;

/// Writes `at` as `fiberplane`'s `Timestamp` displays it, which is the
/// RFC 3339 notation that `time` formats. Trusted: the text is named, not
/// described. Outside the years 0000 to 9999 the display fails, so those
/// instants are left out.
#[verifier::external_body]
pub(crate) fn rfc3339(at: Timestamp) -> (text: String)
    requires
        at.printable(),
    ensures
        text@ == rfc3339_text(at@),
{
    let instant = time::OffsetDateTime::from_unix_timestamp_nanos(at.unix_nanos).unwrap();
    fiberplane::models::timestamps::Timestamp::from(instant).to_string()
}

/// Writes `at` as `time`'s `OffsetDateTime` displays it. Trusted: the text
/// is named, not described.
#[verifier::external_body]
pub(crate) fn date_time(at: Timestamp) -> (text: String)
    requires
        at.printable(),
    ensures
        text@ == date_time_text(at@),
{
    time::OffsetDateTime::from_unix_timestamp_nanos(at.unix_nanos).unwrap().to_string()
}

/// The time from one instant up to another.
#[derive(Clone, Copy, Debug, PartialEq, Eq, Structural)]
pub struct TimeRange {
    pub from: Timestamp,
    pub to: Timestamp,
}

impl TimeRange {
    /// Whether the length of the range can be counted in whole seconds: the
    /// seconds of both ends, and their difference, fit in 64 bits.
    pub open spec fn measurable(self) -> bool {
        &&& self.from.has_seconds()
        &&& self.to.has_seconds()
        &&& i64::MIN <= self.to.spec_unix_timestamp() - self.from.spec_unix_timestamp() <= i64::MAX
    }

    /// Whether both ends lie in the years 0000 to 9999.
    pub open spec fn printable(self) -> bool {
        self.from.printable() && self.to.printable()
    }
}

impl Timestamp {
    /// Whether the instant lies in the years 0000 to 9999.
    pub fn is_printable(&self) -> (printable: bool)
        ensures
            printable == self.printable(),
    {
        FIRST_PRINTABLE_NANOS <= self.unix_nanos && self.unix_nanos < END_PRINTABLE_NANOS
    }

    /// The instant six hours before this one.
    pub open spec fn spec_six_hours_earlier(self) -> Timestamp {
        Timestamp { unix_nanos: (self.unix_nanos - SIX_HOURS_NANOS) as i128 }
    }

    /// The instant six hours before this one.
    pub fn six_hours_earlier(&self) -> (earlier: Timestamp)
        requires
            self@ - SIX_HOURS_NANOS >= i128::MIN,
        ensures
            earlier == self.spec_six_hours_earlier(),
            earlier@ == self@ - SIX_HOURS_NANOS,
    {
        Timestamp { unix_nanos: self.unix_nanos - SIX_HOURS_NANOS }
    }

    /// The RFC 3339 notation of the instant.
    pub fn to_rfc3339(&self) -> (text: String)
        requires
            self.printable(),
        ensures
            text@ == rfc3339_text(self@),
    {
        rfc3339(*self)
    }

    /// The plain notation of the instant.
    pub fn to_text(&self) -> (text: String)
        requires
            self.printable(),
        ensures
            text@ == date_time_text(self@),
    {
        date_time(*self)
    }
}

} // verus!
