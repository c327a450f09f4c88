//! The shared threshold policy: the named constants and the comparison
//! rules that classify each raw metric into a severity.
//!
//! Every metric tests its bands from most to least severe, so the
//! classification is always the most severe matching band.

use vstd::prelude::*;

use crate::Severity;
use crate::severity_rank;

verus! {

/// Percentage-used value at or above which endurance is a warning.
pub const ENDURANCE_WARN: i64 = 70;

/// Percentage-used value at or above which endurance is critical.
pub const ENDURANCE_CRIT: i64 = 90;

/// Margin in percentage points above the spare threshold inside which the
/// available spare is a warning.
pub const SPARE_WARN_MARGIN: i64 = 10;

/// Count at or above which an error-like counter (reallocated sectors,
/// spin retries, media errors) is a warning.
pub const COUNTER_TRIP: i64 = 1;

/// Count at or above which unsafe shutdowns are a warning.
pub const UNSAFE_SHUTDOWN_WARN: i64 = 10;

/// Normalized wear level at or below which the drive is critical.
pub const WEAR_CRIT: i64 = 10;

/// Normalized wear level at or below which the drive is a warning.
pub const WEAR_WARN: i64 = 30;

/// Severity of the available spare percentage against its threshold:
/// critical at or below the threshold, a warning within
/// [`SPARE_WARN_MARGIN`] points above it, healthy beyond.
pub open spec fn spare_severity(spare: int, threshold: int) -> Severity {
    if spare <= threshold {
        Severity::Critical
    } else if spare <= threshold + SPARE_WARN_MARGIN {
        Severity::Warning
    } else {
        Severity::Normal
    }
}

/// Severity of the percentage-used endurance indicator.
pub open spec fn endurance_severity(percentage_used: int) -> Severity {
    if percentage_used >= ENDURANCE_CRIT {
        Severity::Critical
    } else if percentage_used >= ENDURANCE_WARN {
        Severity::Warning
    } else {
        Severity::Normal
    }
}

/// Severity of an error-like counter that trips at [`COUNTER_TRIP`].
pub open spec fn counter_severity(count: int) -> Severity {
    if count >= COUNTER_TRIP {
        Severity::Warning
    } else {
        Severity::Normal
    }
}

/// Severity of the unsafe-shutdown counter.
pub open spec fn unsafe_shutdown_severity(count: int) -> Severity {
    if count >= UNSAFE_SHUTDOWN_WARN {
        Severity::Warning
    } else {
        Severity::Normal
    }
}

/// Severity of the normalized wear level (remaining endurance, 0-100).
pub open spec fn wear_severity(normalized: int) -> Severity {
    if normalized <= WEAR_CRIT {
        Severity::Critical
    } else if normalized <= WEAR_WARN {
        Severity::Warning
    } else {
        Severity::Normal
    }
}

/// Classifies the available spare percentage against its threshold.
pub fn classify_spare(spare: i64, threshold: i64) -> (r: Severity)
    ensures
        r == spare_severity(spare as int, threshold as int),
{
    if spare <= threshold {
        Severity::Critical
    } else if spare as i128 <= threshold as i128 + SPARE_WARN_MARGIN as i128 {
        Severity::Warning
    } else {
        Severity::Normal
    }
}

/// Classifies the percentage-used endurance indicator.
pub fn classify_endurance(percentage_used: i64) -> (r: Severity)
    ensures
        r == endurance_severity(percentage_used as int),
{
    if percentage_used >= ENDURANCE_CRIT {
        Severity::Critical
    } else if percentage_used >= ENDURANCE_WARN {
        Severity::Warning
    } else {
        Severity::Normal
    }
}

/// Classifies an error-like counter that trips at [`COUNTER_TRIP`].
pub fn classify_counter(count: i64) -> (r: Severity)
    ensures
        r == counter_severity(count as int),
{
    if count >= COUNTER_TRIP {
        Severity::Warning
    } else {
        Severity::Normal
    }
}

/// Classifies the unsafe-shutdown counter.
pub fn classify_unsafe_shutdowns(count: i64) -> (r: Severity)
    ensures
        r == unsafe_shutdown_severity(count as int),
{
    if count >= UNSAFE_SHUTDOWN_WARN {
        Severity::Warning
    } else {
        Severity::Normal
    }
}

/// Classifies the normalized wear level.
pub fn classify_wear(normalized: i64) -> (r: Severity)
    ensures
        r == wear_severity(normalized as int),
{
    if normalized <= WEAR_CRIT {
        Severity::Critical
    } else if normalized <= WEAR_WARN {
        Severity::Warning
    } else {
        Severity::Normal
    }
}

/// Law: the endurance classification is monotone in the percentage used;
/// more wear never classifies as less severe.
pub proof fn lemma_endurance_severity_monotone(p1: int, p2: int)
    requires
        p1 <= p2,
    ensures
        severity_rank(endurance_severity(p1)) <= severity_rank(endurance_severity(p2)),
{
}

/// Law: the wear classification is antitone in the remaining endurance;
/// less remaining endurance never classifies as less severe.
pub proof fn lemma_wear_severity_antitone(w1: int, w2: int)
    requires
        w1 <= w2,
    ensures
        severity_rank(wear_severity(w1)) >= severity_rank(wear_severity(w2)),
{
}

/// Law: the spare classification is antitone in the available spare at a
/// fixed threshold; less spare never classifies as less severe.
pub proof fn lemma_spare_severity_antitone(s1: int, s2: int, threshold: int)
    requires
        s1 <= s2,
    ensures
        severity_rank(spare_severity(s1, threshold)) >= severity_rank(
            spare_severity(s2, threshold),
        ),
{
}

} // verus!
