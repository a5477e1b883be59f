//! Topic assignment: each worker is bound to one of `topic_fan_out`
//! shared topics, chosen by its index alone.

use vstd::prelude::*;
use vstd::string::StringExecFns;
use crate::numfmt::spec_decimal;
use crate::numfmt::decimal_string;

verus! {

/// The topic a worker is bound to: its index modulo the fan-out.
pub open spec fn spec_topic_index(worker_index: u64, topic_fan_out: u64) -> u64
    recommends
        topic_fan_out > 0,
{
    worker_index % topic_fan_out
}

/// The full topic identifier: `base + "_" + (worker_index mod fan_out)`.
pub open spec fn spec_topic_name(base: Seq<char>, worker_index: u64, topic_fan_out: u64) -> Seq<
    char,
>
    recommends
        topic_fan_out > 0,
{
    base + seq!['_'] + spec_decimal(spec_topic_index(worker_index, topic_fan_out))
}

/// Which of the shared topics a worker publishes to or consumes from.
pub fn topic_index(worker_index: u64, topic_fan_out: u64) -> (r: u64)
    requires
        topic_fan_out > 0,
    ensures
        r == spec_topic_index(worker_index, topic_fan_out),
        r < topic_fan_out,
{
    worker_index % topic_fan_out
}

/// Builds the topic identifier a worker is bound to.
pub fn topic_name(base: &str, worker_index: u64, topic_fan_out: u64) -> (r: String)
    requires
        topic_fan_out > 0,
    ensures
        r@ == spec_topic_name(base@, worker_index, topic_fan_out),
{
    let mut out = String::from_str(base);
    proof {
        reveal_strlit("_");
    }
    out.append("_");
    let digits = decimal_string(topic_index(worker_index, topic_fan_out));
    out.append(digits.as_str());
    proof {
        assert(out@ =~= spec_topic_name(base@, worker_index, topic_fan_out));
    }
    out
}

/// Topic assignment is a pure function of the worker index modulo the
/// fan-out: two workers whose indices agree modulo the fan-out are always
/// bound to the same topic.
pub proof fn lemma_topic_assignment_pure(base: Seq<char>, i: u64, j: u64, topic_fan_out: u64)
    requires
        topic_fan_out > 0,
        i % topic_fan_out == j % topic_fan_out,
    ensures
        spec_topic_name(base, i, topic_fan_out) == spec_topic_name(base, j, topic_fan_out),
{
}

} // verus!
