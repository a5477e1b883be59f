//! Publisher and subscriber worker state machines.
//!
//! Workers run as cooperatively scheduled tasks on an outside executor;
//! the per-tick suspend and the asynchronous publish happen there. The
//! state transition each tick outcome causes is defined and verified here:
//! a successful publish advances the worker's sequence number and sent
//! count together, a failed one is silently absorbed and advances nothing.

use vstd::prelude::*;
use crate::latency::LatencyTracker;

verus! {

/// Smallest synthetic latency sample a subscriber draws, inclusive, in
/// microseconds.
pub const SYNTHETIC_LATENCY_MIN_US: u64 = 1;

/// Largest synthetic latency sample a subscriber draws, exclusive, in
/// microseconds.
pub const SYNTHETIC_LATENCY_MAX_US: u64 = 50;

/// Interval between two ticks of a rate-limited publisher, in microseconds.
///
/// A publisher targeting `rate_hz` messages per second suspends for this
/// long at the end of each tick, measured from tick start, so the rate is
/// a target rather than a guarantee.
pub fn tick_interval_micros(rate_hz: u32) -> (r: u64)
    requires
        rate_hz > 0,
    ensures
        r == 1_000_000u64 / rate_hz as u64,
{
    1_000_000u64 / rate_hz as u64
}

/// Relies on rand::random_range: a uniform draw from a non-empty integer
/// range `lo..hi` lies in that range; the range is non-empty here, so the
/// call does not panic.
#[verifier::external_body]
fn draw_uniform(lo: u64, hi: u64) -> (r: u64)
    requires
        lo < hi,
    ensures
        lo <= r < hi,
{
    rand::random_range(lo..hi)
}

/// How many of a run of tick outcomes were successful publishes.
pub open spec fn success_count(outcomes: Seq<bool>) -> int
    decreases outcomes.len(),
{
    if outcomes.len() == 0 {
        0
    } else {
        success_count(outcomes.drop_last()) + if outcomes.last() {
            1int
        } else {
            0int
        }
    }
}

/// A run never counts more successes than it has ticks, nor fewer than none.
pub proof fn lemma_success_count_bounds(outcomes: Seq<bool>)
    ensures
        0 <= success_count(outcomes) <= outcomes.len(),
    decreases outcomes.len(),
{
    if outcomes.len() > 0 {
        lemma_success_count_bounds(outcomes.drop_last());
    }
}

/// The state one publisher worker carries across its ticks.
#[derive(Clone, Copy, Debug, PartialEq, Eq, Structural)]
pub struct PublisherState {
    /// Monotonically increasing sequence number, stamped into the next
    /// message; advances only on a successful publish.
    pub sequence: u64,
    /// How many publishes of this worker have succeeded.
    pub sent: u64,
}

impl PublisherState {
    /// A fresh worker that has published nothing.
    pub fn new() -> (r: PublisherState)
        ensures
            r.sequence == 0,
            r.sent == 0,
    {
        PublisherState { sequence: 0, sent: 0 }
    }

    /// The timestamp the worker stamps into the message of its next tick:
    /// the current sequence number.
    pub fn next_message_timestamp(&self) -> (r: u64)
        ensures
            r == self.sequence,
    {
        self.sequence
    }

    /// Applies one tick's publish outcome: success advances the sequence
    /// number and the sent count together; failure is absorbed, nothing
    /// advances, and the worker proceeds to its next tick.
    pub fn on_publish_outcome(&mut self, success: bool)
        requires
            old(self).sequence < u64::MAX,
            old(self).sent < u64::MAX,
        ensures
            success ==> final(self).sequence == old(self).sequence + 1 && final(self).sent == old(
                self,
            ).sent + 1,
            !success ==> *final(self) == *old(self),
    {
        if success {
            self.sequence = self.sequence + 1;
            self.sent = self.sent + 1;
        }
    }

    /// Replays a whole run of tick outcomes: the sequence number and the
    /// sent count each advance by exactly the number of successes.
    pub fn replay_outcomes(&mut self, outcomes: &Vec<bool>)
        requires
            old(self).sequence + outcomes@.len() <= u64::MAX,
            old(self).sent + outcomes@.len() <= u64::MAX,
        ensures
            final(self).sequence == old(self).sequence + success_count(outcomes@),
            final(self).sent == old(self).sent + success_count(outcomes@),
    {
        let mut k: usize = 0;
        proof {
            assert(outcomes@.subrange(0, 0) =~= Seq::<bool>::empty());
        }
        while k < outcomes.len()
            invariant
                k <= outcomes@.len(),
                old(self).sequence + outcomes@.len() <= u64::MAX,
                old(self).sent + outcomes@.len() <= u64::MAX,
                self.sequence == old(self).sequence + success_count(outcomes@.subrange(0, k as int)),
                self.sent == old(self).sent + success_count(outcomes@.subrange(0, k as int)),
            decreases outcomes@.len() - k,
        {
            proof {
                lemma_success_count_bounds(outcomes@.subrange(0, k as int));
            }
            let b = outcomes[k];
            self.on_publish_outcome(b);
            proof {
                let pre = outcomes@.subrange(0, k as int);
                let cur = outcomes@.subrange(0, k as int + 1);
                assert(cur.drop_last() =~= pre);
                assert(cur.last() == b);
            }
            k = k + 1;
        }
        proof {
            assert(outcomes@.subrange(0, outcomes@.len() as int) =~= outcomes@);
        }
    }
}

/// Load-generation law: a single publisher whose every publish succeeds and
/// that completes exactly `rate_hz * duration_secs` ticks ends the run with
/// `sent == floor(duration * rate)`, which lies inside the ten-percent band
/// `[0.9 * floor(D * R), 1.1 * floor(D * R)]` (stated here over integers as
/// `9 * target <= 10 * sent <= 11 * target`). Drift of a real run's tick
/// count away from `rate * duration` comes from suspend timing alone.
pub proof fn lemma_single_publisher_message_count(
    outcomes: Seq<bool>,
    rate_hz: u32,
    duration_secs: u64,
)
    requires
        outcomes.len() == rate_hz as int * duration_secs as int,
        forall|i: int| 0 <= i < outcomes.len() ==> outcomes[i],
    ensures
        success_count(outcomes) == rate_hz as int * duration_secs as int,
        9 * (rate_hz as int * duration_secs as int) <= 10 * success_count(outcomes),
        10 * success_count(outcomes) <= 11 * (rate_hz as int * duration_secs as int),
{
    lemma_success_count_all_true(outcomes);
}

/// A run of ticks that all succeeded counts every tick as sent.
proof fn lemma_success_count_all_true(outcomes: Seq<bool>)
    requires
        forall|i: int| 0 <= i < outcomes.len() ==> outcomes[i],
    ensures
        success_count(outcomes) == outcomes.len(),
    decreases outcomes.len(),
{
    if outcomes.len() > 0 {
        lemma_success_count_all_true(outcomes.drop_last());
    }
}

/// The state one subscriber worker carries across its ticks.
#[derive(Clone, Copy, Debug, PartialEq, Eq, Structural)]
pub struct SubscriberState {
    /// How many messages this worker has modeled as consumed.
    pub received: u64,
}

impl SubscriberState {
    /// A fresh worker that has consumed nothing.
    pub fn new() -> (r: SubscriberState)
        ensures
            r.received == 0,
    {
        SubscriberState { received: 0 }
    }

    /// One tick of the reception simulator: counts one consumed message
    /// and records one synthetic latency sample, drawn from the bounded
    /// synthetic distribution, into the tracker. Exactly one sample is
    /// appended, whatever value the draw produced.
    pub fn on_tick(&mut self, tracker: &mut LatencyTracker)
        requires
            old(self).received < u64::MAX,
        ensures
            final(self).received == old(self).received + 1,
            final(tracker)@.len() == old(tracker)@.len() + 1,
            exists|s: u64|
                {
                    &&& SYNTHETIC_LATENCY_MIN_US <= s < SYNTHETIC_LATENCY_MAX_US
                    &&& final(tracker)@ == old(tracker)@.push(s)
                },
    {
        self.received = self.received + 1;
        let sample = draw_uniform(SYNTHETIC_LATENCY_MIN_US, SYNTHETIC_LATENCY_MAX_US);
        tracker.record(sample);
    }
}

} // verus!
