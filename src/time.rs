//! File modification times, held as whole seconds relative to the Unix epoch.
use vstd::prelude::*;

verus! {

/// Nanoseconds in one second.
pub const NANOS_PER_SEC: u32 = 1_000_000_000;

/// An instant on the file system's clock: `secs` whole seconds (rounded
/// down) and `nanos` further nanoseconds after the Unix epoch. An instant
/// before the epoch has negative `secs`.
#[derive(Clone, Copy, Debug, PartialEq, Eq, Structural)]
pub struct FileTime {
    pub secs: i64,
    pub nanos: u32,
}

impl FileTime {
    /// Nanoseconds stay below one second.
    pub open spec fn wf(self) -> bool {
        self.nanos < NANOS_PER_SEC
    }

    /// The instant that lies `secs` seconds and `nanos` nanoseconds after the epoch.
    pub fn new(secs: i64, nanos: u32) -> (r: FileTime)
        requires
            nanos < NANOS_PER_SEC,
        ensures
            r.secs == secs,
            r.nanos == nanos,
            r.wf(),
    {
        FileTime { secs, nanos }
    }

    /// The Unix epoch itself.
    pub fn epoch() -> (r: FileTime)
        ensures
            r.secs == 0,
            r.nanos == 0,
    {
        FileTime { secs: 0, nanos: 0 }
    }

    /// Whether the instant lies before the epoch, where it has no duration since it.
    pub open spec fn is_before_epoch(self) -> bool {
        self.secs < 0
    }
}

/// Why two instants could not be compared.
#[derive(Clone, Copy, Debug, PartialEq, Eq, Structural)]
pub enum TimeError {
    /// One of the instants lies before the epoch.
    BeforeEpoch,
}

/// The distance in whole seconds between the epoch-relative second counts
/// of two instants, or an error where either lies before the epoch.
pub open spec fn spec_diff_secs(t1: FileTime, t2: FileTime) -> Result<u64, TimeError> {
    if t1.is_before_epoch() || t2.is_before_epoch() {
        Err(TimeError::BeforeEpoch)
    } else if t1.secs > t2.secs {
        Ok((t1.secs - t2.secs) as u64)
    } else {
        Ok((t2.secs - t1.secs) as u64)
    }
}

/// The absolute difference in whole seconds since the epoch of `t1` and `t2`.
pub fn diff_secs(t1: &FileTime, t2: &FileTime) -> (r: Result<u64, TimeError>)
    ensures
        r == spec_diff_secs(*t1, *t2),
        r is Ok <==> (t1.secs >= 0 && t2.secs >= 0),
        r matches Ok(d) ==> d as int == if t1.secs >= t2.secs {
            t1.secs - t2.secs
        } else {
            t2.secs - t1.secs
        },
{
    if t1.secs < 0 || t2.secs < 0 {
        return Err(TimeError::BeforeEpoch);
    }
    let seconds1 = t1.secs as u64;
    let seconds2 = t2.secs as u64;
    if seconds1 > seconds2 {
        Ok(seconds1 - seconds2)
    } else {
        Ok(seconds2 - seconds1)
    }
}

} // verus!
