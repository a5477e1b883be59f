//! Final result aggregation and qualitative assessment.
//!
//! Invoked once, after all workers and the monitor have completed: the
//! aggregator turns the final counter values, the elapsed wall-clock time
//! and a latency snapshot into an immutable result record. The qualitative
//! tiers mirror the fixed display thresholds of the human-readable report;
//! they never affect the run's outcome.

use vstd::prelude::*;
use crate::latency::LatencyStatistics;

verus! {

/// Overall throughput in messages per second: total messages divided by
/// the elapsed time. A zero elapsed time reports zero rather than failing;
/// a quotient beyond `u64` saturates.
pub open spec fn spec_throughput(total_messages: u64, elapsed_micros: u64) -> u64 {
    if elapsed_micros == 0 {
        0u64
    } else {
        let q = total_messages as int * 1_000_000 / elapsed_micros as int;
        if q > u64::MAX {
            u64::MAX
        } else {
            q as u64
        }
    }
}

/// Computes the run's throughput; see [`spec_throughput`].
pub fn throughput_msg_per_sec(total_messages: u64, elapsed_micros: u64) -> (r: u64)
    ensures
        r == spec_throughput(total_messages, elapsed_micros),
{
    if elapsed_micros == 0 {
        0
    } else {
        proof {
            assert((total_messages as int) * 1_000_000 <= 0xFFFF_FFFF_FFFF_FFFF * 1_000_000int)
                by (nonlinear_arith)
                requires
                    total_messages <= 0xFFFF_FFFF_FFFF_FFFFu64,
            ;
            vstd::arithmetic::div_mod::lemma_div_is_ordered(
                0,
                total_messages as int * 1_000_000,
                elapsed_micros as int,
            );
        }
        let wide: u128 = total_messages as u128 * 1_000_000u128 / elapsed_micros as u128;
        if wide > u64::MAX as u128 {
            u64::MAX
        } else {
            wide as u64
        }
    }
}

/// The immutable record a finished run produces, handed to the reporter.
///
/// Advisory resource-usage figures (average CPU, peak memory) are not
/// measured by this core; the reporting layer attaches them to its output.
#[derive(Clone, Copy, Debug, PartialEq, Eq, Structural)]
pub struct TestResults {
    pub total_messages: u64,
    pub elapsed_micros: u64,
    pub throughput_msg_per_sec: u64,
    pub latency: LatencyStatistics,
}

/// Assembles the final results from the run's end state: the final value
/// of the sent counter, the elapsed wall-clock time, and the final latency
/// snapshot.
pub fn aggregate_results(total_sent: u64, elapsed_micros: u64, latency: LatencyStatistics) -> (r:
    TestResults)
    ensures
        r.total_messages == total_sent,
        r.elapsed_micros == elapsed_micros,
        r.throughput_msg_per_sec == spec_throughput(total_sent, elapsed_micros),
        r.latency == latency,
{
    TestResults {
        total_messages: total_sent,
        elapsed_micros,
        throughput_msg_per_sec: throughput_msg_per_sec(total_sent, elapsed_micros),
        latency,
    }
}

/// Qualitative throughput label of the human-readable report;
/// display-only.
#[derive(Clone, Copy, Debug, PartialEq, Eq, Structural)]
pub enum ThroughputTier {
    Excellent,
    Good,
    NeedsImprovement,
}

/// Labels a throughput against the report's fixed thresholds: above
/// 50,000 msg/s is excellent, above 10,000 msg/s is good.
pub fn classify_throughput(msg_per_sec: u64) -> (r: ThroughputTier)
    ensures
        r == ThroughputTier::Excellent <==> msg_per_sec > 50_000,
        r == ThroughputTier::Good <==> 10_000 < msg_per_sec <= 50_000,
        r == ThroughputTier::NeedsImprovement <==> msg_per_sec <= 10_000,
{
    if msg_per_sec > 50_000 {
        ThroughputTier::Excellent
    } else if msg_per_sec > 10_000 {
        ThroughputTier::Good
    } else {
        ThroughputTier::NeedsImprovement
    }
}

/// Qualitative latency label of the human-readable report; display-only.
#[derive(Clone, Copy, Debug, PartialEq, Eq, Structural)]
pub enum LatencyTier {
    Low,
    Acceptable,
    High,
}

/// Labels a p99 latency against the report's fixed thresholds: below
/// 100 µs is low, below 1,000 µs is acceptable.
pub fn classify_latency(p99_micros: u64) -> (r: LatencyTier)
    ensures
        r == LatencyTier::Low <==> p99_micros < 100,
        r == LatencyTier::Acceptable <==> 100 <= p99_micros < 1_000,
        r == LatencyTier::High <==> p99_micros >= 1_000,
{
    if p99_micros < 100 {
        LatencyTier::Low
    } else if p99_micros < 1_000 {
        LatencyTier::Acceptable
    } else {
        LatencyTier::High
    }
}

} // verus!
