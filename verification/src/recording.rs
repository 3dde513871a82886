//! The recording-side capability interface: the contract producers write
//! against when they report metric values, independent of any backend.

use vstd::prelude::*;
use crate::observer::QuantileSample;

verus! {

/// A value that records collected metrics.
///
/// Producers hold a handle typed only by this interface, never by a
/// concrete backend, so backends are swappable without touching producer
/// code.  No method of this interface fails: a backend that cannot
/// represent an update accepts and drops or buffers it rather than
/// propagating an error through this call.
pub trait MetricsRecorder {
    /// Records that the counter named by `key` currently holds `value`.
    fn record_counter(&mut self, key: &str, value: u64);

    /// Records that the gauge named by `key` currently holds `value`.
    fn record_gauge(&mut self, key: &str, value: i64);

    /// Records a histogram summary for the metric named by `key`:
    /// pre-computed quantile samples in render order, plus the total sum
    /// and count of the underlying raw observations, both supplied by the
    /// caller.
    fn record_histogram(
        &mut self,
        key: &str,
        quantiles: &Vec<QuantileSample>,
        sum: u64,
        count: u64,
    );
}

} // verus!
