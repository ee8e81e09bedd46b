//! Health of the market-data sources: status labels, staleness
//! classification and the status recorded after a failed sync.

use crate::text::str_eq;
use vstd::prelude::*;

verus! {

/// The health of a data source.
#[derive(Debug, Clone, Copy, PartialEq, Eq, Structural)]
pub enum SourceStatus {
    Healthy,
    Degraded,
    Unavailable,
}

/// The label of a status as stored and served.
pub open spec fn source_status_label(status: SourceStatus) -> Seq<char> {
    match status {
        SourceStatus::Healthy => "healthy"@,
        SourceStatus::Degraded => "degraded"@,
        SourceStatus::Unavailable => "unavailable"@,
    }
}

/// The status a stored label stands for; an unknown label counts as
/// unavailable.
pub open spec fn source_status_from_label(label: Seq<char>) -> SourceStatus {
    if label == "healthy"@ {
        SourceStatus::Healthy
    } else if label == "degraded"@ {
        SourceStatus::Degraded
    } else {
        SourceStatus::Unavailable
    }
}

/// The severity order of statuses: healthy, degraded, unavailable.
pub open spec fn status_rank(status: SourceStatus) -> int {
    match status {
        SourceStatus::Healthy => 0,
        SourceStatus::Degraded => 1,
        SourceStatus::Unavailable => 2,
    }
}

/// `x` clamped to the range of `i64`, as saturating `i64` arithmetic gives.
pub open spec fn saturate_i64(x: int) -> int {
    if x > i64::MAX {
        i64::MAX as int
    } else if x < i64::MIN {
        i64::MIN as int
    } else {
        x
    }
}

/// The status of a source whose last successful update is `last_ms` at time
/// `now_ms`: healthy while the age is within `stale_after_ms`, degraded while
/// it is within three times that, unavailable after.
pub open spec fn classify_status(now_ms: int, last_ms: int, stale_after_ms: int) -> SourceStatus {
    let age = saturate_i64(now_ms - last_ms);
    if age <= stale_after_ms {
        SourceStatus::Healthy
    } else if age <= saturate_i64(stale_after_ms * 3) {
        SourceStatus::Degraded
    } else {
        SourceStatus::Unavailable
    }
}

/// The status recorded when a sync fails: degraded while the last success is
/// recent enough not to count as unavailable, unavailable otherwise or when
/// the source never succeeded.
pub open spec fn failed_sync_status(
    now_ms: int,
    last_successful_update_ms: Option<i64>,
    stale_after_ms: int,
) -> SourceStatus {
    match last_successful_update_ms {
        Some(last) => match classify_status(now_ms, last as int, stale_after_ms) {
            SourceStatus::Unavailable => SourceStatus::Unavailable,
            _ => SourceStatus::Degraded,
        },
        None => SourceStatus::Unavailable,
    }
}

/// `a - b` with `i64` saturation.
pub fn saturating_sub_i64(a: i64, b: i64) -> (res: i64)
    ensures
        res == saturate_i64(a - b),
{
    let wide: i128 = a as i128 - b as i128;
    if wide > i64::MAX as i128 {
        i64::MAX
    } else if wide < i64::MIN as i128 {
        i64::MIN
    } else {
        wide as i64
    }
}

/// `a * b` with `i64` saturation.
pub fn saturating_mul_i64(a: i64, b: i64) -> (res: i64)
    ensures
        res == saturate_i64(a * b),
{
    assert(-0x8000_0000_0000_0000 * 0x8000_0000_0000_0000 <= a * b <= 0x8000_0000_0000_0000
        * 0x8000_0000_0000_0000) by (nonlinear_arith)
        requires
            i64::MIN <= a <= i64::MAX,
            i64::MIN <= b <= i64::MAX,
    ;
    let wide: i128 = a as i128 * b as i128;
    if wide > i64::MAX as i128 {
        i64::MAX
    } else if wide < i64::MIN as i128 {
        i64::MIN
    } else {
        wide as i64
    }
}

impl SourceStatus {
    /// The label of the status.
    pub fn as_str(self) -> (label: &'static str)
        ensures
            label@ == source_status_label(self),
    {
        match self {
            SourceStatus::Healthy => "healthy",
            SourceStatus::Degraded => "degraded",
            SourceStatus::Unavailable => "unavailable",
        }
    }

}

/// The status a stored label stands for; an unknown label counts as
/// unavailable.
pub fn source_status_from_str(value: &str) -> (status: SourceStatus)
    ensures
        status == source_status_from_label(value@),
{
    if str_eq(value, "healthy") {
        SourceStatus::Healthy
    } else if str_eq(value, "degraded") {
        SourceStatus::Degraded
    } else {
        SourceStatus::Unavailable
    }
}

/// Classifies sources by the age of their last successful update.
#[derive(Debug, Default, Clone, Copy)]
pub struct SourceHealthMonitor;

impl SourceHealthMonitor {
    /// The status of a source at `now_ms` whose last successful update was
    /// at `last_successful_update_ms`.
    pub fn classify(self, now_ms: i64, last_successful_update_ms: i64, stale_after_ms: i64) -> (status:
        SourceStatus)
        ensures
            status == classify_status(
                now_ms as int,
                last_successful_update_ms as int,
                stale_after_ms as int,
            ),
    {
        let age = saturating_sub_i64(now_ms, last_successful_update_ms);
        if age <= stale_after_ms {
            return SourceStatus::Healthy;
        }
        if age <= saturating_mul_i64(stale_after_ms, 3) {
            return SourceStatus::Degraded;
        }
        SourceStatus::Unavailable
    }

    /// The status to record after a failed sync, given the source's last
    /// successful update if it ever had one.
    pub fn status_after_failed_sync(
        self,
        now_ms: i64,
        last_successful_update_ms: Option<i64>,
        stale_after_ms: i64,
    ) -> (status: SourceStatus)
        ensures
            status == failed_sync_status(
                now_ms as int,
                last_successful_update_ms,
                stale_after_ms as int,
            ),
    {
        match last_successful_update_ms {
            Some(last) => match self.classify(now_ms, last, stale_after_ms) {
                SourceStatus::Healthy | SourceStatus::Degraded => SourceStatus::Degraded,
                SourceStatus::Unavailable => SourceStatus::Unavailable,
            },
            None => SourceStatus::Unavailable,
        }
    }
}

/// Reading a status's own label gives the status back.
pub proof fn lemma_source_status_label_round_trip(status: SourceStatus)
    ensures
        source_status_from_label(source_status_label(status)) == status,
{
    reveal_strlit("healthy");
    reveal_strlit("degraded");
    reveal_strlit("unavailable");
    assert("degraded"@[0] != "healthy"@[0]);
    assert("unavailable"@[0] != "healthy"@[0]);
    assert("unavailable"@[0] != "degraded"@[0]);
}

/// A source only gets worse as time passes without a successful update: the
/// classification at a later time is never healthier than at an earlier one.
pub proof fn lemma_classify_monotone_in_time(
    earlier_ms: i64,
    later_ms: i64,
    last_successful_update_ms: i64,
    stale_after_ms: i64,
)
    requires
        earlier_ms <= later_ms,
    ensures
        status_rank(classify_status(earlier_ms as int, last_successful_update_ms as int, stale_after_ms as int))
            <= status_rank(classify_status(later_ms as int, last_successful_update_ms as int, stale_after_ms as int)),
{
}

/// A source updated at the very moment it is classified is healthy whenever
/// the staleness bound is not negative.
pub proof fn lemma_classify_fresh_is_healthy(now_ms: i64, stale_after_ms: i64)
    requires
        stale_after_ms >= 0,
    ensures
        classify_status(now_ms as int, now_ms as int, stale_after_ms as int) == SourceStatus::Healthy,
{
}

/// A failed sync never records a healthy source.
pub proof fn lemma_failed_sync_never_healthy(
    now_ms: i64,
    last_successful_update_ms: Option<i64>,
    stale_after_ms: i64,
)
    ensures
        failed_sync_status(now_ms as int, last_successful_update_ms, stale_after_ms as int)
            != SourceStatus::Healthy,
{
}

} // verus!
