//! Uptime counters broken down into days, hours, minutes and seconds.

use vstd::prelude::*;

verus! {

/// Seconds in a minute.
pub const SECONDS_PER_MINUTE: u64 = 60;

/// Seconds in an hour.
pub const SECONDS_PER_HOUR: u64 = 3600;

/// Seconds in a day.
pub const SECONDS_PER_DAY: u64 = 86400;

/// Whole seconds held in `millis` milliseconds; the sub-second remainder is discarded.
pub open spec fn whole_seconds(millis: nat) -> nat {
    millis / 1000
}

/// The number of seconds that a `(days, hours, minutes, seconds)` breakdown stands for.
pub open spec fn breakdown_seconds(b: (u64, u64, u64, u64)) -> nat {
    (b.0 * 86400 + b.1 * 3600 + b.2 * 60 + b.3) as nat
}

/// A breakdown is normalized when every field below the days is less than the
/// modulus of the unit above it.
pub open spec fn is_normalized(b: (u64, u64, u64, u64)) -> bool {
    b.1 < 24 && b.2 < 60 && b.3 < 60
}

/// The normalized breakdown of `millis` milliseconds.
pub open spec fn breakdown_of(millis: u32) -> (u64, u64, u64, u64) {
    let seconds = whole_seconds(millis as nat);
    (
        (seconds / 86400) as u64,
        (seconds % 86400 / 3600) as u64,
        (seconds % 3600 / 60) as u64,
        (seconds % 60) as u64,
    )
}

/// Converts an uptime counter in milliseconds into `(days, hours, minutes, seconds)`.
pub fn convert_millis_to_hms(millis: u32) -> (b: (u64, u64, u64, u64))
    ensures
        is_normalized(b),
        breakdown_seconds(b) == whole_seconds(millis as nat),
        b == breakdown_of(millis),
{
    let total_seconds: u64 = (millis / 1000) as u64;

    let days: u64 = total_seconds / SECONDS_PER_DAY;
    let remaining_seconds: u64 = total_seconds % SECONDS_PER_DAY;

    let hours: u64 = remaining_seconds / SECONDS_PER_HOUR;
    let remaining_seconds: u64 = remaining_seconds % SECONDS_PER_HOUR;

    let minutes: u64 = remaining_seconds / SECONDS_PER_MINUTE;
    let seconds: u64 = remaining_seconds % SECONDS_PER_MINUTE;

    (days, hours, minutes, seconds)
}

/// A normalized breakdown is determined by the number of seconds it stands for:
/// two normalized breakdowns of the same count are the same breakdown.
pub proof fn lemma_breakdown_unique(a: (u64, u64, u64, u64), b: (u64, u64, u64, u64))
    requires
        is_normalized(a),
        is_normalized(b),
        breakdown_seconds(a) == breakdown_seconds(b),
    ensures
        a == b,
{
}

} // verus!
