use ros3_stress::config::ConfigError;
use ros3_stress::config::MessageProfile;
use ros3_stress::config::OutputMode;
use ros3_stress::config::RunConfiguration;
use ros3_stress::config::SerializationFormat;
use ros3_stress::latency::LatencyTracker;
use ros3_stress::latency::merge_worker_samples;
use ros3_stress::latency::percentile_from_sorted;
use ros3_stress::latency::sort_samples;
use ros3_stress::monitor::interval_rate;
use ros3_stress::monitor::monitor_tick_count;
use ros3_stress::monitor::MonitorState;
use ros3_stress::numfmt::decimal_string;
use ros3_stress::numfmt::format_number;
use ros3_stress::results::aggregate_results;
use ros3_stress::results::classify_latency;
use ros3_stress::results::classify_throughput;
use ros3_stress::results::throughput_msg_per_sec;
use ros3_stress::results::LatencyTier;
use ros3_stress::results::ThroughputTier;
use ros3_stress::worker::tick_interval_micros;
use ros3_stress::topic::topic_index;
use ros3_stress::topic::topic_name;
use ros3_stress::worker::PublisherState;
use ros3_stress::worker::SubscriberState;

#[test]
fn single_publisher_no_failures_hits_target() {
    // rate 100 Hz for 2 seconds, every publish succeeds
    let rate: u64 = 100;
    let duration: u64 = 2;
    let target = rate * duration;
    let outcomes = vec![true; target as usize];
    let mut publisher = PublisherState::new();
    publisher.replay_outcomes(&outcomes);
    assert_eq!(publisher.sent, target);
    assert_eq!(publisher.sequence, target);
    assert!(9 * target <= 10 * publisher.sent && 10 * publisher.sent <= 11 * target);
}

#[test]
fn publisher_failures_absorbed() {
    let outcomes = vec![true, false, true, false, false, true];
    let mut publisher = PublisherState::new();
    publisher.replay_outcomes(&outcomes);
    assert_eq!(publisher.sent, 3);
    assert_eq!(publisher.sequence, 3);
}

#[test]
fn publisher_step_success_and_failure() {
    let mut publisher = PublisherState::new();
    assert_eq!(publisher.next_message_timestamp(), 0);
    publisher.on_publish_outcome(true);
    assert_eq!(publisher.sent, 1);
    assert_eq!(publisher.sequence, 1);
    assert_eq!(publisher.next_message_timestamp(), 1);
    publisher.on_publish_outcome(false);
    assert_eq!(publisher.sent, 1);
    assert_eq!(publisher.sequence, 1);
}

#[test]
fn percentile_ordering_invariant() {
    let mut tracker = LatencyTracker::new();
    for sample in [44u64, 2, 91, 7, 7, 130, 55, 3, 99, 12] {
        tracker.record(sample);
    }
    let snap = tracker.snapshot();
    assert_eq!(snap.sample_count, 10);
    assert!(snap.p50 <= snap.p95);
    assert!(snap.p95 <= snap.p99);
    assert!(snap.p99 <= snap.p999);
    assert!(snap.p999 <= snap.max);
    assert_eq!(snap.max, 130);
}

#[test]
fn example_percentile_computation() {
    // samples 10, 20, 30, 40, 100 µs: nearest rank ceil(0.5 * 5) = 3,
    // so p50 is the third sorted value
    let mut tracker = LatencyTracker::new();
    for sample in [10u64, 20, 30, 40, 100] {
        tracker.record(sample);
    }
    let snap = tracker.snapshot();
    assert_eq!(snap.p50, 30);
    assert_eq!(snap.max, 100);
    assert_eq!(snap.sample_count, 5);
}

#[test]
fn percentiles_on_unsorted_input() {
    let mut tracker = LatencyTracker::new();
    for sample in [100u64, 40, 10, 30, 20] {
        tracker.record(sample);
    }
    let snap = tracker.snapshot();
    assert_eq!(snap.p50, 30);
    assert_eq!(snap.max, 100);
}

#[test]
fn empty_tracker_snapshot_is_zero() {
    let tracker = LatencyTracker::new();
    let snap = tracker.snapshot();
    assert_eq!(snap.sample_count, 0);
    assert_eq!(snap.p50, 0);
    assert_eq!(snap.p95, 0);
    assert_eq!(snap.p99, 0);
    assert_eq!(snap.p999, 0);
    assert_eq!(snap.max, 0);
}

#[test]
fn single_sample_snapshot() {
    let mut tracker = LatencyTracker::new();
    tracker.record(77);
    let snap = tracker.snapshot();
    assert_eq!(snap.p50, 77);
    assert_eq!(snap.p95, 77);
    assert_eq!(snap.max, 77);
    assert_eq!(snap.sample_count, 1);
}

#[test]
fn equal_samples_snapshot() {
    let mut tracker = LatencyTracker::new();
    for _ in 0..4 {
        tracker.record(25);
    }
    let snap = tracker.snapshot();
    assert_eq!(snap.p50, 25);
    assert_eq!(snap.max, 25);
}

#[test]
fn sort_and_percentile_helpers() {
    let sorted = sort_samples(&vec![3u64, 1, 2]);
    assert_eq!(sorted, vec![1u64, 2, 3]);
    // nearest rank ceil(0.5 * 2) = 1 on two samples
    let two = vec![10u64, 20];
    assert_eq!(percentile_from_sorted(&two, 500), 10);
    assert_eq!(percentile_from_sorted(&two, 1000), 20);
}

#[test]
fn concurrent_write_consistency() {
    // three independent worker buffers, merged after all have completed
    let buffers = vec![vec![5u64, 9, 1], vec![7u64, 7, 7, 7], vec![2u64, 4, 6, 8, 10]];
    let total: usize = buffers.iter().map(|b| b.len()).sum();
    let tracker = merge_worker_samples(&buffers);
    assert_eq!(tracker.sample_count(), total);
    let snap = tracker.snapshot();
    assert_eq!(snap.sample_count, 12);
    assert_eq!(snap.max, 10);
}

#[test]
fn record_batch_accumulates() {
    let mut tracker = LatencyTracker::new();
    tracker.record_batch(&vec![1u64, 2, 3]);
    tracker.record_batch(&vec![4u64]);
    assert_eq!(tracker.sample_count(), 4);
}

#[test]
fn subscriber_tick_records_bounded_sample() {
    let mut tracker = LatencyTracker::new();
    let mut subscriber = SubscriberState::new();
    subscriber.on_tick(&mut tracker);
    assert_eq!(subscriber.received, 1);
    assert_eq!(tracker.sample_count(), 1);
    let snap = tracker.snapshot();
    // the synthetic distribution is bounded to [1, 50) µs
    assert!(snap.max >= 1 && snap.max < 50);
}

#[test]
fn topic_assignment_is_pure() {
    // fan-out 10: worker 11 maps to the same topic as worker 1
    assert_eq!(topic_index(11, 10), topic_index(1, 10));
    assert_eq!(
        topic_name("stress_topic", 11, 10),
        topic_name("stress_topic", 1, 10)
    );
    assert_eq!(topic_name("stress_topic", 3, 10), "stress_topic_3");
    assert_eq!(topic_name("stress_topic", 13, 10), "stress_topic_3");
}

#[test]
fn throughput_identity() {
    // 5000 messages over 2.5 seconds is 2000 msg/s
    assert_eq!(throughput_msg_per_sec(5000, 2_500_000), 2000);
    // zero elapsed time reports zero, not an error
    assert_eq!(throughput_msg_per_sec(5000, 0), 0);
    assert_eq!(throughput_msg_per_sec(0, 0), 0);
    // saturates instead of overflowing
    assert_eq!(throughput_msg_per_sec(u64::MAX, 1), u64::MAX);
}

#[test]
fn zero_worker_run() {
    let config = RunConfiguration::new(
        0,
        0,
        100,
        1,
        10,
        MessageProfile::Small,
        SerializationFormat::CompactBinary,
        OutputMode::HumanReadable,
    );
    let config = config.expect("zero workers are a valid configuration");
    assert_eq!(config.publisher_count, 0);
    assert_eq!(config.subscriber_count, 0);
    // no worker ran: counters stay zero, the tracker stays empty
    let tracker = LatencyTracker::new();
    let results = aggregate_results(0, 1_000_000, tracker.snapshot());
    assert_eq!(results.total_messages, 0);
    assert_eq!(results.throughput_msg_per_sec, 0);
    assert_eq!(results.latency.sample_count, 0);
}

#[test]
fn config_rejects_zero_values() {
    let bad_rate = RunConfiguration::new(
        1,
        1,
        0,
        30,
        10,
        MessageProfile::Small,
        SerializationFormat::CompactBinary,
        OutputMode::HumanReadable,
    );
    assert_eq!(bad_rate.unwrap_err(), ConfigError::ZeroRate);
    let bad_duration = RunConfiguration::new(
        1,
        1,
        100,
        0,
        10,
        MessageProfile::Small,
        SerializationFormat::Text,
        OutputMode::Structured,
    );
    assert_eq!(bad_duration.unwrap_err(), ConfigError::ZeroDuration);
    let bad_fan_out = RunConfiguration::new(
        1,
        1,
        100,
        30,
        0,
        MessageProfile::Large,
        SerializationFormat::CompactBinary,
        OutputMode::HumanReadable,
    );
    assert_eq!(bad_fan_out.unwrap_err(), ConfigError::ZeroTopicFanOut);
}

#[test]
fn tick_interval_from_rate() {
    assert_eq!(tick_interval_micros(100), 10_000);
    assert_eq!(tick_interval_micros(1), 1_000_000);
    assert_eq!(tick_interval_micros(3), 333_333);
}

#[test]
fn monitor_interval_rates() {
    assert_eq!(monitor_tick_count(30, 5), 6);
    assert_eq!(monitor_tick_count(4, 5), 0);
    assert_eq!(interval_rate(100, 600, 5), 100);
    assert_eq!(interval_rate(0, 0, 5), 0);
    // zero elapsed period reports zero, not an error
    assert_eq!(interval_rate(10, 20, 0), 0);

    let mut monitor = MonitorState::new();
    let (sent_rate, received_rate) = monitor.on_tick(500, 250, 5);
    assert_eq!(sent_rate, 100);
    assert_eq!(received_rate, 50);
    let (sent_rate, received_rate) = monitor.on_tick(1500, 250, 5);
    assert_eq!(sent_rate, 200);
    assert_eq!(received_rate, 0);
}

#[test]
fn qualitative_tiers() {
    assert_eq!(classify_throughput(50_001), ThroughputTier::Excellent);
    assert_eq!(classify_throughput(50_000), ThroughputTier::Good);
    assert_eq!(classify_throughput(10_001), ThroughputTier::Good);
    assert_eq!(classify_throughput(10_000), ThroughputTier::NeedsImprovement);
    assert_eq!(classify_latency(99), LatencyTier::Low);
    assert_eq!(classify_latency(100), LatencyTier::Acceptable);
    assert_eq!(classify_latency(999), LatencyTier::Acceptable);
    assert_eq!(classify_latency(1_000), LatencyTier::High);
}

#[test]
fn number_formatting() {
    assert_eq!(format_number(0), "0");
    assert_eq!(format_number(7), "7");
    assert_eq!(format_number(999), "999");
    assert_eq!(format_number(1000), "1,000");
    assert_eq!(format_number(1_234_567), "1,234,567");
    assert_eq!(format_number(100_000), "100,000");
    assert_eq!(format_number(u64::MAX), "18,446,744,073,709,551,615");
    assert_eq!(decimal_string(0), "0");
    assert_eq!(decimal_string(90210), "90210");
}

#[test]
fn aggregate_results_fields() {
    let mut tracker = LatencyTracker::new();
    tracker.record(10);
    tracker.record(20);
    let snap = tracker.snapshot();
    let results = aggregate_results(600, 3_000_000, snap);
    assert_eq!(results.total_messages, 600);
    assert_eq!(results.elapsed_micros, 3_000_000);
    assert_eq!(results.throughput_msg_per_sec, 200);
    assert_eq!(results.latency, snap);
}
