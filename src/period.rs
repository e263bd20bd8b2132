//! The start of the reporting period, read from the command line as a date
//! and time in UTC. Parsing and printing dates is chrono's work.
use vstd::prelude::*;

verus! {

/// What chrono makes of a text read as a `DateTime<Utc>`: seconds since the
/// Unix epoch and the nanoseconds within the second, or None if refused.
pub uninterp spec fn utc_instant_of(text: Seq<char>) -> Option<(i64, u32)>;

/// chrono's RFC 3339 rendering of the instant given by seconds since the Unix
/// epoch and nanoseconds, or None where chrono holds the instant out of range.
pub uninterp spec fn rfc3339_of(secs: i64, nanos: u32) -> Option<Seq<char>>;

/// Relies on chrono's `FromStr` for `DateTime<Utc>` (a relaxed RFC 3339
/// reader), with the result read back through `DateTime::timestamp` and
/// `DateTime::timestamp_subsec_nanos`.
#[verifier::external_body]
fn parse_utc(text: &str) -> (r: Option<(i64, u32)>)
    ensures
        r == utc_instant_of(text@),
{
    match text.parse::<chrono::DateTime<chrono::Utc>>() {
        Ok(d) => Some((d.timestamp(), d.timestamp_subsec_nanos())),
        Err(_) => None,
    }
}

/// Relies on chrono's `DateTime::from_timestamp`, None out of range, and on
/// `DateTime::to_rfc3339` for the text.
#[verifier::external_body]
fn rfc3339_text(secs: i64, nanos: u32) -> (r: Option<String>)
    ensures
        match r {
            Some(t) => rfc3339_of(secs, nanos) == Some(t@),
            None => rfc3339_of(secs, nanos) is None,
        },
{
    match chrono::DateTime::from_timestamp(secs, nanos) {
        Some(d) => Some(d.to_rfc3339()),
        None => None,
    }
}

/// Why a period start was refused.
#[derive(Debug, Clone, Copy, PartialEq, Eq)]
pub enum PeriodError {
    /// The text is not a date and time that chrono reads.
    Malformed,
    /// chrono read the text but cannot render the instant back.
    OutOfRange,
}

/// The first instant of the reporting period, with the text printed for it
/// in each report line.
#[derive(Debug, PartialEq, Eq)]
pub struct PeriodStart {
    /// Seconds since the Unix epoch.
    pub secs: i64,
    /// Nanoseconds within the second.
    pub nanos: u32,
    /// The instant in RFC 3339 form.
    pub label: String,
}

impl PeriodStart {
    /// Reads the period start from a command-line text.
    pub fn parse(text: &str) -> (r: Result<PeriodStart, PeriodError>)
        ensures
            match utc_instant_of(text@) {
                None => r == Err::<PeriodStart, PeriodError>(PeriodError::Malformed),
                Some(t) => match rfc3339_of(t.0, t.1) {
                    None => r == Err::<PeriodStart, PeriodError>(PeriodError::OutOfRange),
                    Some(label) => r matches Ok(p) && p.secs == t.0 && p.nanos == t.1
                        && p.label@ == label,
                },
            },
    {
        match parse_utc(text) {
            None => Err(PeriodError::Malformed),
            Some((secs, nanos)) => match rfc3339_text(secs, nanos) {
                None => Err(PeriodError::OutOfRange),
                Some(label) => Ok(PeriodStart { secs, nanos, label }),
            },
        }
    }
}

} // verus!
