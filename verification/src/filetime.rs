//! File times: counts of 100 nanoseconds since the first day of the year 1601.

use vstd::prelude::*;

verus! {

/// The file time of the first day of the year 1970, from which Unix time is
/// counted.
pub const EPOCH_AS_FILETIME: u64 = 116444736000000000;

/// A point in time on the UTC scale: whole seconds since the first day of the
/// year 1970, and the nanoseconds since the last whole second.
#[derive(Debug, Clone, Copy, PartialEq, Eq)]
pub struct UtcTime {
    pub secs: i64,
    pub subsec_nanos: u32,
}

/// The file time that stands for `nanos` nanoseconds of Unix time. A negative
/// count is taken modulo 2 to the power 64 before it is scaled.
pub open spec fn filetime_of_nanos(nanos: int) -> int {
    (if nanos >= 0 {
        nanos
    } else {
        nanos + 0x1_0000_0000_0000_0000
    }) / 100 + EPOCH_AS_FILETIME
}

impl UtcTime {
    /// The nanoseconds of Unix time at this point.
    pub open spec fn nanos(self) -> int {
        self.secs * 1_000_000_000 + self.subsec_nanos
    }

    /// Whether the nanoseconds of Unix time at this point fit 64 bits with a sign.
    pub open spec fn nanos_in_range(self) -> bool {
        i64::MIN <= self.nanos() <= i64::MAX
    }

    /// The nanoseconds of Unix time at this point, if they fit 64 bits with a sign.
    pub fn timestamp_nanos_opt(&self) -> (r: Option<i64>)
        ensures
            self.nanos_in_range() <==> r is Some,
            r matches Some(n) ==> n == self.nanos(),
    {
        let secs: i128 = self.secs as i128;
        let sub: i128 = self.subsec_nanos as i128;
        let total: i128 = secs * 1_000_000_000 + sub;
        if total < i64::MIN as i128 || total > i64::MAX as i128 {
            None
        } else {
            Some(total as i64)
        }
    }
}

/// Reads the clock with `chrono::Utc::now` and takes from the result its
/// `timestamp` and its `timestamp_subsec_nanos`. Nothing is claimed of the time
/// that comes back.
#[verifier::external_body]
fn utc_now() -> (now: UtcTime) {
    let now = chrono::Utc::now();
    UtcTime { secs: now.timestamp(), subsec_nanos: now.timestamp_subsec_nanos() }
}

/// The file time that stands for `nanos` nanoseconds of Unix time.
pub fn filetime_from_nanos(nanos: i64) -> (t: u64)
    ensures
        t == filetime_of_nanos(nanos as int),
{
    let count: u64 = if nanos >= 0 {
        nanos as u64
    } else {
        u64::MAX - ((-(nanos + 1)) as u64)
    };
    count / 100 + EPOCH_AS_FILETIME
}

/// The file time of a point in time whose nanoseconds of Unix time fit 64 bits
/// with a sign, as they do from the year 1678 to the year 2261.
pub fn filetime_from_utc(dt: UtcTime) -> (t: u64)
    requires
        dt.nanos_in_range(),
    ensures
        t == filetime_of_nanos(dt.nanos()),
{
    match dt.timestamp_nanos_opt() {
        Some(nanos) => filetime_from_nanos(nanos),
        None => vstd::pervasive::unreached(),
    }
}

/// The file time of a point in time, if its nanoseconds of Unix time fit 64
/// bits with a sign.
pub fn filetime_of(dt: UtcTime) -> (t: Option<u64>)
    ensures
        dt.nanos_in_range() <==> t is Some,
        t matches Some(v) ==> v == filetime_of_nanos(dt.nanos()),
{
    match dt.timestamp_nanos_opt() {
        Some(nanos) => Some(filetime_from_nanos(nanos)),
        None => None,
    }
}

/// The file time of the present moment, as the clock of the system tells it;
/// none from the year 2262 on.
pub fn filetime_now() -> (t: Option<u64>)
    ensures
        t matches Some(v) ==> exists|now: UtcTime|
            now.nanos_in_range() && v == filetime_of_nanos(now.nanos()),
{
    let now = utc_now();
    filetime_of(now)
}

} // verus!
