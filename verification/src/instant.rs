//! Instants on the UTC time line, in whole seconds, and the positional
//! offset that places a sample of a series on it.

use vstd::prelude::*;
use crate::resolution::ResolutionDuration;

verus! {

/// The earliest instant that can be held, in seconds since
/// 1970-01-01T00:00:00Z: the first second of the year -262143.
pub const MIN_TIMESTAMP: i64 = -8_334_601_228_800;

/// The latest instant that can be held, in seconds since
/// 1970-01-01T00:00:00Z: the last second of the year 262142.
pub const MAX_TIMESTAMP: i64 = 8_210_266_876_799;

/// Whether `secs` seconds since the epoch is an instant that can be held.
pub open spec fn timestamp_in_range(secs: int) -> bool {
    MIN_TIMESTAMP <= secs <= MAX_TIMESTAMP
}

/// An instant in UTC with a resolution of one second. Its view is the number
/// of seconds since 1970-01-01T00:00:00Z, which always lies between
/// [`MIN_TIMESTAMP`] and [`MAX_TIMESTAMP`].
#[derive(Clone, Copy, Debug, PartialEq, Eq, Structural)]
pub struct UtcTime {
    secs: i64,
}

impl View for UtcTime {
    type V = int;

    closed spec fn view(&self) -> int {
        self.secs as int
    }
}

/// The instant `index` steps of `resolution` after the instant `base`.
pub open spec fn offset_seconds(base: int, index: int, resolution: ResolutionDuration) -> int {
    base + index * resolution.spec_seconds()
}

impl UtcTime {
    #[verifier::type_invariant]
    closed spec fn in_range(self) -> bool {
        timestamp_in_range(self.secs as int)
    }

    /// The instant `secs` seconds after 1970-01-01T00:00:00Z, or before it
    /// where `secs` is negative; `None` where that instant cannot be held.
    pub fn from_timestamp(secs: i64) -> (time: Option<UtcTime>)
        ensures
            time is Some <==> timestamp_in_range(secs as int),
            time matches Some(t) ==> t@ == secs,
    {
        if MIN_TIMESTAMP <= secs && secs <= MAX_TIMESTAMP {
            Some(UtcTime { secs })
        } else {
            None
        }
    }

    /// Seconds since 1970-01-01T00:00:00Z.
    pub fn timestamp(&self) -> (secs: i64)
        ensures
            secs == self@,
            timestamp_in_range(secs as int),
    {
        proof {
            use_type_invariant(self);
        }
        self.secs
    }

    /// The instant `delta` seconds after this one, `None` where it cannot
    /// be held.
    pub fn plus_seconds(&self, delta: i64) -> (time: Option<UtcTime>)
        ensures
            time is Some <==> timestamp_in_range(self@ + delta),
            time matches Some(t) ==> t@ == self@ + delta,
    {
        proof {
            use_type_invariant(self);
        }
        let wide: i128 = self.secs as i128 + delta as i128;
        if MIN_TIMESTAMP as i128 <= wide && wide <= MAX_TIMESTAMP as i128 {
            Some(UtcTime { secs: wide as i64 })
        } else {
            None
        }
    }

    /// Two instants with the same number of seconds are the same instant.
    pub proof fn lemma_view_injective(a: UtcTime, b: UtcTime)
        requires
            a@ == b@,
        ensures
            a == b,
    {
    }
}

/// The instant `index` steps of `resolution` after `base`: a plain sum on
/// the UTC time line, with no regard to any time zone. `None` where the sum
/// is an instant that cannot be held.
pub fn add_offset(base: UtcTime, index: u64, resolution: ResolutionDuration) -> (time: Option<
    UtcTime,
>)
    ensures
        time is Some <==> timestamp_in_range(offset_seconds(base@, index as int, resolution)),
        time matches Some(t) ==> t@ == offset_seconds(base@, index as int, resolution),
{
    let step: i128 = resolution.seconds() as i128;
    let wide: i128 = base.timestamp() as i128 + index as i128 * step;
    if MIN_TIMESTAMP as i128 <= wide && wide <= MAX_TIMESTAMP as i128 {
        UtcTime::from_timestamp(wide as i64)
    } else {
        None
    }
}

} // verus!
