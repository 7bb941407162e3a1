//! Inference latency metrics. Latencies are counted in nanoseconds; the
//! collector keeps the count, total, minimum, maximum and last latency,
//! the engine's memory use and the active precision.
//!
//! `noop` holds the collector of builds that leave metrics out: every
//! operation does nothing.

pub mod noop;

use vstd::prelude::*;

use crate::utils::errors::Precision;

verus! {

/// The largest latency a `std::time::Duration` can hold, in nanoseconds.
pub const MAX_DURATION_NANOS: u128 = 18446744073709551615999999999u128;

#[verifier::external_type_specification]
#[verifier::external_body]
pub struct ExInstant(std::time::Instant);

/// Calls `Instant::now`: a reading of the monotonic clock, about which
/// nothing is stated.
#[verifier::external_body]
fn instant_now() -> (t: std::time::Instant) {
    std::time::Instant::now()
}

/// Calls `Instant::elapsed` on `start` and gives it in nanoseconds: a
/// `Duration`, so at most `MAX_DURATION_NANOS`. What it measures depends on
/// the clock and is not stated.
#[verifier::external_body]
fn nanos_since(start: &std::time::Instant) -> (n: u128)
    ensures
        n <= MAX_DURATION_NANOS,
{
    start.elapsed().as_nanos()
}

/// Collects inference latency and memory metrics.
pub struct MetricsCollector {
    precision: Precision,
    total_latency: u128,
    min_latency: u128,
    max_latency: u128,
    last_latency: u128,
    count: u64,
    memory_bytes: u64,
    timer: Option<std::time::Instant>,
    /// Every latency recorded since creation or the last reset, in order.
    history: Ghost<Seq<nat>>,
}

/// The sum of the latencies `s`.
pub open spec fn sum_of(s: Seq<nat>) -> nat
    decreases s.len(),
{
    if s.len() == 0 {
        0
    } else {
        sum_of(s.drop_last()) + s.last()
    }
}

/// The smallest of the latencies `s` (`MAX_DURATION_NANOS` for none).
pub open spec fn min_of(s: Seq<nat>) -> nat
    decreases s.len(),
{
    if s.len() == 0 {
        MAX_DURATION_NANOS as nat
    } else {
        let m = min_of(s.drop_last());
        if s.last() < m {
            s.last()
        } else {
            m
        }
    }
}

/// The largest of the latencies `s` (0 for none).
pub open spec fn max_of(s: Seq<nat>) -> nat
    decreases s.len(),
{
    if s.len() == 0 {
        0
    } else {
        let m = max_of(s.drop_last());
        if s.last() > m {
            s.last()
        } else {
            m
        }
    }
}

/// The most recent of the latencies `s` (0 for none).
pub open spec fn last_of(s: Seq<nat>) -> nat {
    if s.len() == 0 {
        0
    } else {
        s.last()
    }
}

impl MetricsCollector {
    /// Number of latencies recorded.
    pub closed spec fn recorded(&self) -> nat {
        self.count as nat
    }

    /// Sum of the recorded latencies.
    pub closed spec fn total(&self) -> nat {
        self.total_latency as nat
    }

    /// Smallest recorded latency (`MAX_DURATION_NANOS` when none).
    pub closed spec fn min_latency(&self) -> nat {
        self.min_latency as nat
    }

    /// Largest recorded latency (0 when none).
    pub closed spec fn max_latency(&self) -> nat {
        self.max_latency as nat
    }

    /// Most recent recorded latency (0 when none).
    pub closed spec fn last_latency(&self) -> nat {
        self.last_latency as nat
    }

    /// Engine memory use in bytes.
    pub closed spec fn memory(&self) -> u64 {
        self.memory_bytes
    }

    /// The precision the metrics are reported for.
    pub closed spec fn precision_of(&self) -> Precision {
        self.precision
    }

    /// Whether a timing is running.
    pub closed spec fn timing(&self) -> bool {
        self.timer is Some
    }

    /// The latencies recorded since creation or the last reset, in order.
    pub closed spec fn recordings(&self) -> Seq<nat> {
        self.history@
    }

    /// The collector's invariant: the statistics are those of the recorded
    /// latencies (count, sum, minimum, maximum, last); with nothing recorded
    /// every statistic is at its initial value; otherwise the last latency
    /// lies between the minimum and the maximum, and the total lies between
    /// `count * min` and `count * max`.
    pub closed spec fn wf(&self) -> bool {
        &&& self.count == self.history@.len()
        &&& self.total_latency == sum_of(self.history@)
        &&& self.min_latency == min_of(self.history@)
        &&& self.max_latency == max_of(self.history@)
        &&& self.last_latency == last_of(self.history@)
        &&& self.total_latency <= MAX_DURATION_NANOS
        &&& self.max_latency <= MAX_DURATION_NANOS
        &&& self.min_latency <= MAX_DURATION_NANOS
        &&& self.count == 0 ==> self.total_latency == 0 && self.min_latency == MAX_DURATION_NANOS
            && self.max_latency == 0 && self.last_latency == 0
        &&& self.count > 0 ==> self.min_latency <= self.last_latency <= self.max_latency
            && self.count * self.min_latency <= self.total_latency <= self.count
            * self.max_latency
    }

    /// An empty collector for `precision`.
    pub fn new(precision: Precision) -> (m: MetricsCollector)
        ensures
            m.wf(),
            m.recorded() == 0,
            m.total() == 0,
            m.min_latency() == MAX_DURATION_NANOS,
            m.max_latency() == 0,
            m.last_latency() == 0,
            m.memory() == 0,
            m.precision_of() == precision,
            !m.timing(),
            m.recordings() == Seq::<nat>::empty(),
    {
        MetricsCollector {
            precision,
            total_latency: 0,
            min_latency: MAX_DURATION_NANOS,
            max_latency: 0,
            last_latency: 0,
            count: 0,
            memory_bytes: 0,
            timer: None,
            history: Ghost(Seq::empty()),
        }
    }

    /// Starts timing one inference.
    pub fn start_timing(&mut self)
        requires
            old(self).wf(),
        ensures
            final(self).wf(),
            final(self).timing(),
            final(self).recorded() == old(self).recorded(),
            final(self).total() == old(self).total(),
            final(self).min_latency() == old(self).min_latency(),
            final(self).max_latency() == old(self).max_latency(),
            final(self).last_latency() == old(self).last_latency(),
            final(self).memory() == old(self).memory(),
            final(self).precision_of() == old(self).precision_of(),
            final(self).recordings() == old(self).recordings(),
    {
        self.timer = Some(instant_now());
    }

    /// Stops the running timing and records the elapsed time, which it
    /// returns; without a running timing it records and returns 0. A total
    /// that would pass the largest `Duration` is held at that largest value.
    pub fn stop_timing(&mut self) -> (elapsed: u128)
        requires
            old(self).wf(),
            old(self).recorded() < u64::MAX,
        ensures
            !old(self).timing() ==> elapsed == 0,
            final(self).wf(),
            !final(self).timing(),
            final(self).recorded() == old(self).recorded() + 1,
            final(self).last_latency() == if old(self).total() + elapsed <= MAX_DURATION_NANOS {
                elapsed as int
            } else {
                MAX_DURATION_NANOS - old(self).total()
            },
            final(self).total() == old(self).total() + final(self).last_latency(),
            final(self).min_latency() == if final(self).last_latency() < old(self).min_latency() {
                final(self).last_latency()
            } else {
                old(self).min_latency()
            },
            final(self).max_latency() == if final(self).last_latency() > old(self).max_latency() {
                final(self).last_latency()
            } else {
                old(self).max_latency()
            },
            final(self).recordings() == old(self).recordings().push(final(self).last_latency()),
            final(self).memory() == old(self).memory(),
            final(self).precision_of() == old(self).precision_of(),
    {
        let elapsed: u128 = match &self.timer {
            Some(start) => nanos_since(start),
            None => 0,
        };
        self.timer = None;
        if self.total_latency <= MAX_DURATION_NANOS - elapsed {
            self.record_latency(elapsed);
        } else {
            self.record_latency(MAX_DURATION_NANOS - self.total_latency);
        }
        elapsed
    }

    /// Records one inference latency.
    pub fn record_latency(&mut self, duration_nanos: u128)
        requires
            old(self).wf(),
            old(self).recorded() < u64::MAX,
            old(self).total() + duration_nanos <= MAX_DURATION_NANOS,
        ensures
            final(self).wf(),
            final(self).recorded() == old(self).recorded() + 1,
            final(self).total() == old(self).total() + duration_nanos,
            final(self).last_latency() == duration_nanos,
            final(self).min_latency() == if duration_nanos < old(self).min_latency() {
                duration_nanos as nat
            } else {
                old(self).min_latency()
            },
            final(self).max_latency() == if duration_nanos > old(self).max_latency() {
                duration_nanos as nat
            } else {
                old(self).max_latency()
            },
            final(self).memory() == old(self).memory(),
            final(self).precision_of() == old(self).precision_of(),
            final(self).timing() == old(self).timing(),
            final(self).recordings() == old(self).recordings().push(duration_nanos as nat),
    {
        let ghost h = self.history@;
        let ghost c = self.count as int;
        let ghost t = self.total_latency as int;
        let ghost lo = self.min_latency as int;
        let ghost hi = self.max_latency as int;
        let d = duration_nanos;
        self.count = self.count + 1;
        self.total_latency = self.total_latency + d;
        self.last_latency = d;
        if d < self.min_latency {
            self.min_latency = d;
        }
        if d > self.max_latency {
            self.max_latency = d;
        }
        self.history = Ghost(h.push(d as nat));
        proof {
            assert(h.push(d as nat).drop_last() =~= h);
            let lo2 = self.min_latency as int;
            let hi2 = self.max_latency as int;
            if c == 0 {
                assert(lo2 == d && hi2 == d);
            } else {
                assert(c * lo2 <= c * lo) by (nonlinear_arith)
                    requires
                        lo2 <= lo,
                        c > 0,
                ;
                assert(c * hi <= c * hi2) by (nonlinear_arith)
                    requires
                        hi <= hi2,
                        c > 0,
                ;
                assert((c + 1) * lo2 == c * lo2 + lo2) by (nonlinear_arith);
                assert((c + 1) * hi2 == c * hi2 + hi2) by (nonlinear_arith);
            }
        }
    }

    /// Sets the engine memory use reported with the metrics.
    pub fn set_memory_usage(&mut self, bytes: u64)
        requires
            old(self).wf(),
        ensures
            final(self).wf(),
            final(self).memory() == bytes,
            final(self).recorded() == old(self).recorded(),
            final(self).total() == old(self).total(),
            final(self).min_latency() == old(self).min_latency(),
            final(self).max_latency() == old(self).max_latency(),
            final(self).last_latency() == old(self).last_latency(),
            final(self).precision_of() == old(self).precision_of(),
            final(self).timing() == old(self).timing(),
            final(self).recordings() == old(self).recordings(),
    {
        self.memory_bytes = bytes;
    }

    /// Sets the precision the metrics are reported for.
    pub fn set_precision(&mut self, precision: Precision)
        requires
            old(self).wf(),
        ensures
            final(self).wf(),
            final(self).precision_of() == precision,
            final(self).recorded() == old(self).recorded(),
            final(self).total() == old(self).total(),
            final(self).min_latency() == old(self).min_latency(),
            final(self).max_latency() == old(self).max_latency(),
            final(self).last_latency() == old(self).last_latency(),
            final(self).memory() == old(self).memory(),
            final(self).timing() == old(self).timing(),
            final(self).recordings() == old(self).recordings(),
    {
        self.precision = precision;
    }

    /// Clears every latency statistic and any running timing; memory use
    /// and precision are kept.
    pub fn reset(&mut self)
        requires
            old(self).wf(),
        ensures
            final(self).wf(),
            final(self).recorded() == 0,
            final(self).total() == 0,
            final(self).min_latency() == MAX_DURATION_NANOS,
            final(self).max_latency() == 0,
            final(self).last_latency() == 0,
            !final(self).timing(),
            final(self).memory() == old(self).memory(),
            final(self).precision_of() == old(self).precision_of(),
            final(self).recordings() == Seq::<nat>::empty(),
    {
        self.total_latency = 0;
        self.min_latency = MAX_DURATION_NANOS;
        self.max_latency = 0;
        self.last_latency = 0;
        self.count = 0;
        self.timer = None;
        self.history = Ghost(Seq::empty());
    }

    /// Number of latencies recorded.
    pub fn inference_count(&self) -> (n: u64)
        ensures
            n == self.recorded(),
    {
        self.count
    }

    /// Sum of the recorded latencies in nanoseconds.
    pub fn total_latency_nanos(&self) -> (n: u128)
        ensures
            n == self.total(),
    {
        self.total_latency
    }

    /// Smallest recorded latency in nanoseconds.
    pub fn min_latency_nanos(&self) -> (n: u128)
        ensures
            n == self.min_latency(),
    {
        self.min_latency
    }

    /// Largest recorded latency in nanoseconds.
    pub fn max_latency_nanos(&self) -> (n: u128)
        ensures
            n == self.max_latency(),
    {
        self.max_latency
    }

    /// Most recent latency in nanoseconds.
    pub fn last_latency_nanos(&self) -> (n: u128)
        ensures
            n == self.last_latency(),
    {
        self.last_latency
    }

    /// Engine memory use in bytes.
    pub fn memory_bytes(&self) -> (n: u64)
        ensures
            n == self.memory(),
    {
        self.memory_bytes
    }

    /// The precision the metrics are reported for.
    pub fn precision(&self) -> (p: Precision)
        ensures
            p == self.precision_of(),
    {
        self.precision
    }
}

/// Whatever was recorded, the minimum never exceeds the maximum, the last
/// latency lies between them, and the average (total over count) lies
/// between them too: `count * min <= total <= count * max`.
pub proof fn lemma_latency_bounds(m: &MetricsCollector)
    requires
        m.wf(),
    ensures
        m.recorded() > 0 ==> m.min_latency() <= m.last_latency() <= m.max_latency(),
        m.recorded() > 0 ==> m.recorded() * m.min_latency() <= m.total() <= m.recorded()
            * m.max_latency(),
        m.recorded() == 0 ==> m.total() == 0,
{
}

/// After any sequence of recordings since creation or the last reset,
/// the collector's statistics are those of the recorded latencies: their
/// number, their sum, the smallest, the largest and the most recent.
pub proof fn lemma_statistics_of_recordings(m: &MetricsCollector)
    requires
        m.wf(),
    ensures
        m.recorded() == m.recordings().len(),
        m.total() == sum_of(m.recordings()),
        m.min_latency() == min_of(m.recordings()),
        m.max_latency() == max_of(m.recordings()),
        m.last_latency() == last_of(m.recordings()),
{
}

} // verus!
