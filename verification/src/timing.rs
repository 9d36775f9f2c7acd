//! Time arithmetic of the player. Every position and duration is a whole
//! number of milliseconds; a quotient that does not fit saturates.

use vstd::prelude::*;

verus! {

/// Milliseconds in one second.
pub const MILLIS_PER_SECOND: u64 = 1000;

/// Sample rate assumed for a track whose container does not state one.
pub const DEFAULT_SAMPLE_RATE: u32 = 44100;

/// `num / den` rounded down and capped at `u64::MAX`. A zero denominator
/// gives `0` for a zero numerator and the cap otherwise.
pub open spec fn saturating_quotient(num: nat, den: nat) -> u64 {
    if den == 0 {
        if num == 0 {
            0
        } else {
            u64::MAX
        }
    } else if num / den > u64::MAX {
        u64::MAX
    } else {
        (num / den) as u64
    }
}

/// Length in milliseconds of `n_frames` frames played at `sample_rate`
/// frames per second; `0` when the frame count is unknown.
pub open spec fn duration_millis(n_frames: Option<u64>, sample_rate: u32) -> u64 {
    match n_frames {
        Some(n) => saturating_quotient((n * MILLIS_PER_SECOND) as nat, sample_rate as nat),
        None => 0,
    }
}

/// Milliseconds that a timestamp `ts` stands for under the time base
/// `numer / denom` seconds per tick.
pub open spec fn timestamp_millis(ts: u64, numer: u32, denom: u32) -> u64 {
    saturating_quotient((ts * numer * MILLIS_PER_SECOND) as nat, denom as nat)
}

/// Executable form of [`saturating_quotient`].
pub fn quotient_or_max(num: u128, den: u128) -> (q: u64)
    ensures
        q == saturating_quotient(num as nat, den as nat),
{
    if den == 0 {
        if num == 0 {
            0
        } else {
            u64::MAX
        }
    } else {
        let whole: u128 = num / den;
        if whole > u64::MAX as u128 {
            u64::MAX
        } else {
            whole as u64
        }
    }
}

/// Duration of a track in milliseconds from its frame count and sample rate.
pub fn duration_ms(n_frames: Option<u64>, sample_rate: u32) -> (ms: u64)
    ensures
        ms == duration_millis(n_frames, sample_rate),
{
    match n_frames {
        Some(n) => {
            assert(n * MILLIS_PER_SECOND <= u64::MAX * 1000) by (nonlinear_arith)
                requires
                    n <= u64::MAX,
                    MILLIS_PER_SECOND == 1000,
            ;
            quotient_or_max(n as u128 * MILLIS_PER_SECOND as u128, sample_rate as u128)
        },
        None => 0,
    }
}

/// Position in milliseconds of a packet stamped `ts` under the time base
/// `numer / denom`.
pub fn packet_position_ms(ts: u64, numer: u32, denom: u32) -> (ms: u64)
    ensures
        ms == timestamp_millis(ts, numer, denom),
{
    assert(ts * numer <= u64::MAX * u32::MAX) by (nonlinear_arith)
        requires
            ts <= u64::MAX,
            numer <= u32::MAX,
    ;
    let ticks: u128 = ts as u128 * numer as u128;
    assert(ticks * MILLIS_PER_SECOND <= u64::MAX * u32::MAX * 1000) by (nonlinear_arith)
        requires
            ticks <= u64::MAX * u32::MAX,
            MILLIS_PER_SECOND == 1000,
    ;
    quotient_or_max(ticks * MILLIS_PER_SECOND as u128, denom as u128)
}

/// A seek target split into whole seconds and the milliseconds left over.
#[derive(Clone, Copy, Debug, PartialEq, Eq)]
pub struct SeekTarget {
    pub seconds: u64,
    /// Always below [`MILLIS_PER_SECOND`].
    pub millis: u64,
}

impl SeekTarget {
    /// The target that `ms` milliseconds stand for.
    pub open spec fn of(ms: u64) -> SeekTarget {
        SeekTarget { seconds: ms / MILLIS_PER_SECOND, millis: ms % MILLIS_PER_SECOND }
    }

    /// The target in milliseconds.
    pub open spec fn total_millis(self) -> int {
        self.seconds * MILLIS_PER_SECOND + self.millis
    }

    pub fn from_millis(ms: u64) -> (target: SeekTarget)
        ensures
            target == SeekTarget::of(ms),
            target.total_millis() == ms,
            target.millis < MILLIS_PER_SECOND,
    {
        SeekTarget { seconds: ms / MILLIS_PER_SECOND, millis: ms % MILLIS_PER_SECOND }
    }
}

} // verus!
