//! Aggregate error counters and the threshold decision.
use vstd::prelude::*;

verus! {

/// Error counters summed over every locked downstream channel of one page.
#[derive(Clone, Copy, Debug, PartialEq, Eq, Structural)]
pub struct ErrorCount {
    pub correctable: u64,
    pub uncorrectable: u64,
}

/// The limits at which the modem is rebooted.
#[derive(Clone, Copy, Debug, PartialEq, Eq, Structural)]
pub struct Thresholds {
    pub correctable_threshold: u64,
    pub uncorrectable_threshold: u64,
}

pub open spec fn exceeded_spec(c: ErrorCount, t: Thresholds) -> bool {
    c.correctable >= t.correctable_threshold || c.uncorrectable >= t.uncorrectable_threshold
}

/// Whether the counts call for action: either counter has reached its limit.
pub fn exceeded(counts: &ErrorCount, thresholds: &Thresholds) -> (r: bool)
    ensures
        r == exceeded_spec(*counts, *thresholds),
        r == (counts.correctable >= thresholds.correctable_threshold
            || counts.uncorrectable >= thresholds.uncorrectable_threshold),
        !r == (counts.correctable < thresholds.correctable_threshold
            && counts.uncorrectable < thresholds.uncorrectable_threshold),
{
    !(counts.correctable < thresholds.correctable_threshold
        && counts.uncorrectable < thresholds.uncorrectable_threshold)
}

} // verus!
