//! The metrics collector of builds without metrics: it keeps the precision
//! it was made with and every operation leaves it unchanged.

use vstd::prelude::*;

use crate::utils::errors::Precision;

verus! {

/// A collector that records nothing.
pub struct MetricsCollector {
    precision: Precision,
}

impl MetricsCollector {
    /// The precision the collector was made with.
    pub closed spec fn precision_of(&self) -> Precision {
        self.precision
    }

    /// A collector for `precision`.
    pub fn new(precision: Precision) -> (m: MetricsCollector)
        ensures
            m.precision_of() == precision,
    {
        MetricsCollector { precision }
    }

    /// Does nothing.
    pub fn start_timing(&mut self)
        ensures
            *final(self) == *old(self),
    {
    }

    /// Does nothing and reports no elapsed time.
    pub fn stop_timing(&mut self) -> (elapsed: u128)
        ensures
            elapsed == 0,
            *final(self) == *old(self),
    {
        0
    }

    /// Does nothing.
    pub fn record_latency(&mut self, duration_nanos: u128)
        ensures
            *final(self) == *old(self),
    {
    }

    /// Does nothing.
    pub fn set_memory_usage(&mut self, bytes: u64)
        ensures
            *final(self) == *old(self),
    {
    }

    /// Does nothing.
    pub fn set_precision(&mut self, precision: Precision)
        ensures
            *final(self) == *old(self),
    {
    }

    /// Does nothing.
    pub fn reset(&mut self)
        ensures
            *final(self) == *old(self),
    {
    }

    /// Always 0: nothing is recorded.
    pub fn inference_count(&self) -> (n: u64)
        ensures
            n == 0,
    {
        0
    }
}

} // verus!
