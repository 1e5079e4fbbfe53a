//! Points in time as the records carry them.

use std::fmt::Write;
use vstd::pervasive::unreached;
use vstd::prelude::*;

verus! {

/// A point in time on the UTC time line: whole seconds since the start of
/// 1970 and the nanoseconds into that second. Every timestamp is a moment
/// that chrono can hold, so every timestamp can be written out.
#[derive(Clone, Copy, Debug, PartialEq, Eq, Structural)]
pub struct Timestamp {
    secs: i64,
    nanos: u32,
}

/// The first second that chrono holds: the start of the year -262143.
pub const FIRST_SECOND: i64 = -8_334_601_228_800;

/// The last second that chrono holds: the end of the year 262142.
pub const LAST_SECOND: i64 = 8_210_266_876_799;

/// Whether chrono's `DateTime::from_timestamp` has a moment for `secs` and
/// `nanos`: the second lies within the years that chrono holds, and the
/// nanoseconds stay below one second, or below two in the last second of a
/// minute, where they stand for a leap second.
pub open spec fn moment_exists(secs: i64, nanos: u32) -> bool {
    &&& FIRST_SECOND <= secs <= LAST_SECOND
    &&& nanos < 1_000_000_000 || (nanos < 2_000_000_000 && secs as int % 60 == 59)
}

/// The text that chrono's `NaiveDateTime::format` gives for the moment
/// `secs`, `nanos` and a strftime pattern; `None` where chrono has no such
/// moment or cannot follow the pattern.
pub uninterp spec fn strftime_text(secs: i64, nanos: u32, pattern: Seq<char>) -> Option<Seq<char>>;

/// The characters of an optional string.
pub open spec fn text_of(text: Option<String>) -> Option<Seq<char>> {
    match text {
        Some(s) => Some(s@),
        None => None,
    }
}

/// The pattern in which the interface shows a timestamp: day, month and year,
/// then minute, second and the nanoseconds.
pub open spec fn display_pattern() -> Seq<char> {
    "%d-%m-%Y %M:%S:%f"@
}

/// Reads the system clock through chrono's `Utc::now` and takes the reading
/// apart with `DateTime::timestamp` and `DateTime::timestamp_subsec_nanos`.
/// Nothing is claimed of the reading but that it is a moment chrono holds:
/// `Utc::now` makes it with `from_timestamp`, and the two parts lead back to
/// it. The call panics where the system clock stands before 1970.
#[verifier::external_body]
pub(crate) fn clock_reading() -> (now: Timestamp)
    ensures
        moment_exists(now.secs(), now.nanos()),
{
    let now = chrono::Utc::now();
    Timestamp { secs: now.timestamp(), nanos: now.timestamp_subsec_nanos() }
}

/// Asks chrono's `DateTime::from_timestamp` whether it has a moment for the
/// two numbers. The contract claims that it has one exactly within the
/// range of seconds and under the rule for nanoseconds that `moment_exists`
/// states.
#[verifier::external_body]
fn moment_held(secs: i64, nanos: u32) -> (held: bool)
    ensures
        held == moment_exists(secs, nanos),
{
    chrono::DateTime::from_timestamp(secs, nanos).is_some()
}

/// Builds the moment with chrono's `DateTime::from_timestamp` and writes it
/// out with `NaiveDateTime::format`. The contract claims that the outcome is
/// a function of the three arguments, named `strftime_text`; that there is
/// no text where `from_timestamp` gives no moment; and that a moment always
/// has a text under the display pattern, whose six fields every date and
/// time of day can fill.
#[verifier::external_body]
fn strftime(secs: i64, nanos: u32, pattern: &str) -> (out: Option<String>)
    ensures
        text_of(out) == strftime_text(secs, nanos, pattern@),
        out.is_some() ==> moment_exists(secs, nanos),
        moment_exists(secs, nanos) && pattern@ == display_pattern() ==> out.is_some(),
{
    match chrono::DateTime::from_timestamp(secs, nanos) {
        Some(moment) => {
            let mut text = String::new();
            match write!(text, "{}", moment.naive_utc().format(pattern)) {
                Ok(()) => Some(text),
                Err(_) => None,
            }
        },
        None => None,
    }
}

impl Timestamp {
    #[verifier::type_invariant]
    spec fn held(self) -> bool {
        moment_exists(self.secs, self.nanos)
    }

    /// The whole seconds since the start of 1970.
    pub closed spec fn spec_secs(&self) -> i64 {
        self.secs
    }

    /// The nanoseconds into the second.
    pub closed spec fn spec_nanos(&self) -> u32 {
        self.nanos
    }

    /// The timestamp of `secs` and `nanos`, where chrono has such a moment.
    pub fn new(secs: i64, nanos: u32) -> (out: Option<Timestamp>)
        ensures
            out.is_some() <==> moment_exists(secs, nanos),
            out matches Some(moment) ==> moment.secs() == secs && moment.nanos() == nanos,
    {
        if moment_held(secs, nanos) {
            Some(Timestamp { secs, nanos })
        } else {
            None
        }
    }

    #[verifier::when_used_as_spec(spec_secs)]
    pub fn secs(&self) -> (secs: i64)
        ensures
            secs == self.secs(),
    {
        self.secs
    }

    #[verifier::when_used_as_spec(spec_nanos)]
    pub fn nanos(&self) -> (nanos: u32)
        ensures
            nanos == self.nanos(),
    {
        self.nanos
    }

    /// The text that `display` gives for this timestamp.
    pub open spec fn display_text(self) -> Seq<char> {
        strftime_text(self.secs(), self.nanos(), display_pattern()).unwrap()
    }

    /// The timestamp as the interface shows it.
    pub fn display(&self) -> (out: String)
        ensures
            out@ == self.display_text(),
            strftime_text(self.secs(), self.nanos(), display_pattern()) == Some(out@),
    {
        proof {
            use_type_invariant(self);
        }
        match strftime(self.secs, self.nanos, "%d-%m-%Y %M:%S:%f") {
            Some(text) => text,
            None => unreached(),
        }
    }
}

} // verus!
