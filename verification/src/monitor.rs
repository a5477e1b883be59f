//! Progress monitor: periodic, purely observational interval-rate reports.
//!
//! The monitor reads the shared counters on a fixed period, reports how
//! fast each grew since its previous tick, and never mutates shared state;
//! its absence changes no final result.

use vstd::prelude::*;

verus! {

/// How many progress ticks a run of `duration_secs` produces on a period
/// of `period_secs`: `floor(duration / period)`.
pub fn monitor_tick_count(duration_secs: u64, period_secs: u64) -> (r: u64)
    requires
        period_secs > 0,
    ensures
        r == duration_secs / period_secs,
{
    duration_secs / period_secs
}

/// The interval rate between two reads of a monotone counter: the growth
/// divided by the elapsed period. A zero elapsed period reports zero
/// rather than failing.
pub fn interval_rate(previous: u64, current: u64, period_secs: u64) -> (r: u64)
    requires
        previous <= current,
    ensures
        period_secs == 0 ==> r == 0,
        period_secs > 0 ==> r == (current - previous) / period_secs as int,
{
    if period_secs == 0 {
        0
    } else {
        (current - previous) / period_secs
    }
}

/// The monitor's memory between ticks: the counter values it read last.
#[derive(Clone, Copy, Debug, PartialEq, Eq, Structural)]
pub struct MonitorState {
    pub last_sent: u64,
    pub last_received: u64,
}

impl MonitorState {
    /// A monitor that has read nothing yet.
    pub fn new() -> (r: MonitorState)
        ensures
            r.last_sent == 0,
            r.last_received == 0,
    {
        MonitorState { last_sent: 0, last_received: 0 }
    }

    /// One monitor tick: computes the interval rate of each counter since
    /// the previous tick and remembers the values read. The counters are
    /// monotone for the life of a run, so the current reads are at least
    /// the remembered ones. Returns `(sent_rate, received_rate)` in
    /// messages per second.
    pub fn on_tick(&mut self, sent: u64, received: u64, period_secs: u64) -> (r: (u64, u64))
        requires
            old(self).last_sent <= sent,
            old(self).last_received <= received,
        ensures
            final(self).last_sent == sent,
            final(self).last_received == received,
            period_secs == 0 ==> r.0 == 0 && r.1 == 0,
            period_secs > 0 ==> r.0 == (sent - old(self).last_sent) / period_secs as int && r.1
                == (received - old(self).last_received) / period_secs as int,
    {
        let sent_rate = interval_rate(self.last_sent, sent, period_secs);
        let received_rate = interval_rate(self.last_received, received, period_secs);
        self.last_sent = sent;
        self.last_received = received;
        (sent_rate, received_rate)
    }
}

} // verus!
