//! Immutable run configuration for the stress harness.

use vstd::prelude::*;

verus! {

/// Size class of the synthetic message payload; affects payload size only.
#[derive(Clone, Copy, Debug, PartialEq, Eq, Structural)]
pub enum MessageProfile {
    Small,
    Medium,
    Large,
}

/// Wire format handed to the external transport; passed through, not
/// interpreted by this harness.
#[derive(Clone, Copy, Debug, PartialEq, Eq, Structural)]
pub enum SerializationFormat {
    CompactBinary,
    Text,
}

/// How the final results are rendered.
#[derive(Clone, Copy, Debug, PartialEq, Eq, Structural)]
pub enum OutputMode {
    HumanReadable,
    Structured,
}

/// A rejected configuration value, reported before any worker starts.
#[derive(Clone, Copy, Debug, PartialEq, Eq, Structural)]
pub enum ConfigError {
    ZeroRate,
    ZeroDuration,
    ZeroTopicFanOut,
}

/// Immutable parameter set for one run, built once at startup.
#[derive(Clone, Copy, Debug)]
pub struct RunConfiguration {
    pub publisher_count: usize,
    pub subscriber_count: usize,
    /// Target messages per second per publisher; always positive.
    pub rate_hz: u32,
    /// Length of the test window in seconds; always positive.
    pub duration_secs: u64,
    /// Number of distinct topics shared by the workers; always positive.
    pub topic_fan_out: u64,
    pub message_profile: MessageProfile,
    pub serialization_format: SerializationFormat,
    pub output_mode: OutputMode,
}

impl RunConfiguration {
    /// The invariant every constructed configuration satisfies.
    pub open spec fn wf(self) -> bool {
        self.rate_hz > 0 && self.duration_secs > 0 && self.topic_fan_out > 0
    }

    /// Validates the raw parameter values and builds the configuration.
    ///
    /// Returns `Err` exactly when the rate, the duration or the topic
    /// fan-out is zero; worker counts of zero are allowed.
    pub fn new(
        publisher_count: usize,
        subscriber_count: usize,
        rate_hz: u32,
        duration_secs: u64,
        topic_fan_out: u64,
        message_profile: MessageProfile,
        serialization_format: SerializationFormat,
        output_mode: OutputMode,
    ) -> (r: Result<RunConfiguration, ConfigError>)
        ensures
            r is Ok <==> rate_hz > 0 && duration_secs > 0 && topic_fan_out > 0,
            r matches Ok(c) ==> {
                &&& c.wf()
                &&& c.publisher_count == publisher_count
                &&& c.subscriber_count == subscriber_count
                &&& c.rate_hz == rate_hz
                &&& c.duration_secs == duration_secs
                &&& c.topic_fan_out == topic_fan_out
                &&& c.message_profile == message_profile
                &&& c.serialization_format == serialization_format
                &&& c.output_mode == output_mode
            },
            rate_hz == 0 ==> r == Result::<RunConfiguration, ConfigError>::Err(
                ConfigError::ZeroRate,
            ),
            rate_hz > 0 && duration_secs == 0 ==> r == Result::<
                RunConfiguration,
                ConfigError,
            >::Err(ConfigError::ZeroDuration),
            rate_hz > 0 && duration_secs > 0 && topic_fan_out == 0 ==> r == Result::<
                RunConfiguration,
                ConfigError,
            >::Err(ConfigError::ZeroTopicFanOut),
    {
        if rate_hz == 0 {
            Err(ConfigError::ZeroRate)
        } else if duration_secs == 0 {
            Err(ConfigError::ZeroDuration)
        } else if topic_fan_out == 0 {
            Err(ConfigError::ZeroTopicFanOut)
        } else {
            Ok(
                RunConfiguration {
                    publisher_count,
                    subscriber_count,
                    rate_hz,
                    duration_secs,
                    topic_fan_out,
                    message_profile,
                    serialization_format,
                    output_mode,
                },
            )
        }
    }
}

} // verus!
