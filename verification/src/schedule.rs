//! When a collector runs: its schedule, the first delay and the pauses
//! between runs.
use vstd::prelude::*;
use crate::config::CollectorConfig;
use crate::error::AgentError;
use crate::label::{LabelView, Labels};
use crate::mdb::MetricsData;
use crate::measure::Measure;
use crate::registry::{Collectors, kind_by_name, kind_name};

verus! {

/// Nanoseconds in a second.
pub const NANOS_PER_SEC: u64 = 1_000_000_000;

/// The longest interval, in seconds, whose length in nanoseconds fits in
/// a `u64`.
pub const MAX_INTERVAL: u64 = 18_446_744_073;

/// `rand::Rng::gen_range` over `0..max` with `rand::thread_rng()`: a
/// uniformly drawn number in the range. The number rests on chance, so
/// the contract claims only that it is below `max`; `gen_range` panics on
/// an empty range, so `max` must be positive.
#[verifier::external_body]
fn random_below(max: u64) -> (r: u64)
    requires
        max > 0,
    ensures
        r < max,
{
    rand::Rng::gen_range(&mut rand::thread_rng(), 0..max)
}

/// A collector instance and how often it runs.
pub struct Schedule {
    pub id: String,
    /// Seconds between runs.
    pub interval: u64,
    /// Labels added to the collector's measures.
    pub labels: Labels,
    pub collector: Collectors,
}

/// The labels a collector configuration names.
pub open spec fn config_labels(value: CollectorConfig) -> Option<Seq<LabelView>> {
    match value.labels {
        Some(m) => Some(m.entry_views()),
        None => None,
    }
}

impl Schedule {
    /// The schedule of a collector configuration. A configuration without
    /// an interval is a `ParseError`; one of an unknown type an
    /// `InvalidCollectorError`.
    pub fn try_from(value: &CollectorConfig) -> (r: Result<Schedule, AgentError>)
        requires
            value.labels matches Some(m) ==> m.wf(),
        ensures
            match value.interval {
                None => r matches Err(AgentError::ParseError(m)) && m@ == "invalid interval"@,
                Some(iv) => match kind_by_name(value.kind@) {
                    None => r matches Err(AgentError::InvalidCollectorError(t)) && t@ == value.kind@,
                    Some(k) => r matches Ok(s) && s.id@ == value.id@ && s.interval == iv
                        && s.labels@ == config_labels(*value) && s.collector == k,
                },
            },
    {
        let interval = match value.interval {
            Some(iv) => iv,
            None => return Err(AgentError::ParseError("invalid interval".to_owned())),
        };
        let labels = Labels::from_config(&value.labels);
        let collector = match Collectors::try_from(value) {
            Ok(k) => k,
            Err(e) => return Err(e),
        };
        Ok(Schedule { id: value.id.clone(), interval, labels, collector })
    }

    /// Nanoseconds to wait before the first run: a random part of the
    /// interval for collectors that start at a random offset, none for the
    /// others.
    pub fn initial_delay(&self) -> (r: u64)
        requires
            self.interval <= MAX_INTERVAL,
            self.collector.is_random_offset_spec() ==> self.interval > 0,
        ensures
            !self.collector.is_random_offset_spec() ==> r == 0,
            self.collector.is_random_offset_spec() ==> r < self.interval * NANOS_PER_SEC,
    {
        if self.collector.is_random_offset() {
            random_below(self.interval * NANOS_PER_SEC)
        } else {
            0
        }
    }

    /// The run's data for the sender: the collector's name, the schedule's
    /// labels, the measures and the run's time.
    pub fn data(&self, measures: Vec<Measure>, ts: u64) -> (r: MetricsData)
        ensures
            r.collector@ == kind_name(self.collector),
            r.labels@ == self.labels@,
            r.measures == measures,
            r.ts == ts,
    {
        MetricsData {
            collector: self.collector.get_name().to_owned(),
            labels: self.labels.duplicate(),
            measures,
            ts,
        }
    }
}

/// Nanoseconds to wait after a run that took `elapsed` nanoseconds: the
/// rest of the interval, or a whole interval when the run took at least
/// the interval's whole seconds.
pub open spec fn sleep_after(interval: u64, elapsed: u128) -> int {
    if elapsed / (NANOS_PER_SEC as u128) >= interval {
        interval * NANOS_PER_SEC
    } else {
        interval * NANOS_PER_SEC - elapsed
    }
}

/// The pause after a run never exceeds the interval; after a run shorter
/// than the interval, run and pause together last one interval.
pub proof fn lemma_sleep_fills_interval(interval: u64, elapsed: u128)
    ensures
        0 <= sleep_after(interval, elapsed) <= interval * NANOS_PER_SEC,
        elapsed < interval * NANOS_PER_SEC ==> elapsed + sleep_after(interval, elapsed) == interval * NANOS_PER_SEC,
        interval > 0 ==> sleep_after(interval, elapsed) > 0,
{
    let secs = elapsed / (NANOS_PER_SEC as u128);
    if secs < interval {
        assert(elapsed < interval * NANOS_PER_SEC) by (nonlinear_arith)
            requires
                secs == elapsed / (NANOS_PER_SEC as u128),
                secs < interval,
        ;
    } else {
        assert(elapsed >= interval * NANOS_PER_SEC) by (nonlinear_arith)
            requires
                secs == elapsed / (NANOS_PER_SEC as u128),
                secs >= interval,
        ;
    }
}

/// Nanoseconds to wait after a run that took `elapsed` nanoseconds (see
/// `sleep_after`).
pub fn next_sleep(interval: u64, elapsed: u128) -> (r: u64)
    requires
        interval <= MAX_INTERVAL,
    ensures
        r as int == sleep_after(interval, elapsed),
{
    let secs: u128 = elapsed / (NANOS_PER_SEC as u128);
    if secs >= interval as u128 {
        interval * NANOS_PER_SEC
    } else {
        assert(elapsed < interval * NANOS_PER_SEC) by (nonlinear_arith)
            requires
                secs == elapsed / (NANOS_PER_SEC as u128),
                secs < interval,
        ;
        interval * NANOS_PER_SEC - (elapsed as u64)
    }
}

} // verus!
