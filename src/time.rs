use vstd::prelude::*;
use crate::error::AuthError;

verus! {

#[verifier::external_type_specification]
#[verifier::external_body]
pub struct ExSystemTime(std::time::SystemTime);

/// An instant in UTC: whole seconds since the Unix epoch, and the
/// nanoseconds past that second.
#[derive(Clone, Copy, Debug, PartialEq, Eq, Structural)]
pub struct Timestamp {
    pub secs: i64,
    pub nanos: u32,
}

/// A signed span of time: `secs` seconds plus `nanos` nanoseconds.
#[derive(Clone, Copy, Debug, PartialEq, Eq, Structural)]
pub struct TimeSpan {
    pub secs: i64,
    pub nanos: u32,
}

pub open spec fn nanos_of(secs: i64, nanos: u32) -> int {
    secs * 1_000_000_000 + nanos
}

impl Timestamp {
    /// The instant as a count of nanoseconds since the Unix epoch.
    pub open spec fn since_epoch(self) -> int {
        nanos_of(self.secs, self.nanos)
    }

    pub fn from_unix(secs: i64, nanos: u32) -> (r: Timestamp)
        ensures
            r.secs == secs,
            r.nanos == nanos,
    {
        Timestamp { secs, nanos }
    }

    /// Nanoseconds since the Unix epoch.
    pub fn epoch_nanos(&self) -> (r: i128)
        ensures
            r == self.since_epoch(),
    {
        self.secs as i128 * 1_000_000_000i128 + self.nanos as i128
    }
}

impl TimeSpan {
    /// The span as a count of nanoseconds.
    pub open spec fn length(self) -> int {
        nanos_of(self.secs, self.nanos)
    }

    pub fn seconds(secs: i64) -> (r: TimeSpan)
        ensures
            r.length() == secs * 1_000_000_000,
    {
        TimeSpan { secs, nanos: 0 }
    }

    pub fn minutes(minutes: i64) -> (r: TimeSpan)
        requires
            i64::MIN <= minutes * 60 <= i64::MAX,
        ensures
            r.length() == minutes * 60 * 1_000_000_000,
    {
        TimeSpan { secs: minutes * 60, nanos: 0 }
    }

    /// The span in nanoseconds.
    pub fn total_nanos(&self) -> (r: i128)
        ensures
            r == self.length(),
    {
        self.secs as i128 * 1_000_000_000i128 + self.nanos as i128
    }
}

/// Relies on std::time::SystemTime::now: the system clock's current time.
/// Nothing is promised of the value.
pub assume_specification[ std::time::SystemTime::now ]() -> std::time::SystemTime;

/// Relies on std::time::SystemTime::duration_since, taken from the Unix
/// epoch: it fails when the given time lies before the epoch.
#[verifier::external_body]
fn duration_since_epoch(t: &std::time::SystemTime) -> (r: Result<
    core::time::Duration,
    std::time::SystemTimeError,
>) {
    t.duration_since(std::time::UNIX_EPOCH)
}

/// Relies on core::time::Duration::as_secs: the whole seconds of a
/// duration. Nothing more is stated.
pub assume_specification[ core::time::Duration::as_secs ](d: &core::time::Duration) -> u64;

/// Relies on core::time::Duration::subsec_nanos: the nanoseconds past the
/// duration's whole seconds, always less than one billion.
pub assume_specification[ core::time::Duration::subsec_nanos ](d: &core::time::Duration) -> (r: u32)
    ensures
        r < 1_000_000_000,
;

/// The current instant by the system clock, or `TimeError` when the clock
/// reports a time before the epoch, or `TimeOutOfRange` when its seconds do
/// not fit in an `i64`.
pub(crate) fn system_timestamp() -> (r: Result<Timestamp, AuthError>)
    ensures
        r matches Ok(t) ==> (t.secs >= 0 && t.nanos < 1_000_000_000),
        r matches Err(e) ==> e is TimeError || e is TimeOutOfRange,
{
    let now = std::time::SystemTime::now();
    match duration_since_epoch(&now) {
        Ok(d) => {
            let secs = d.as_secs();
            if secs > i64::MAX as u64 {
                return Err(AuthError::TimeOutOfRange);
            }
            Ok(Timestamp { secs: secs as i64, nanos: d.subsec_nanos() })
        },
        Err(e) => Err(AuthError::TimeError(e)),
    }
}

/// Whole seconds since the Unix epoch by the system clock, or `TimeError`
/// when the clock reports a time before the epoch.
pub(crate) fn system_unix_seconds() -> (r: Result<u64, AuthError>)
    ensures
        r matches Err(e) ==> e is TimeError,
{
    let now = std::time::SystemTime::now();
    match duration_since_epoch(&now) {
        Ok(d) => Ok(d.as_secs()),
        Err(e) => Err(AuthError::TimeError(e)),
    }
}

} // verus!
