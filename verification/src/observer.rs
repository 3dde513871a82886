//! The observer-side capability interface: the contract every metrics
//! backend implements in order to receive observations from producers.

use vstd::prelude::*;

verus! {

/// One quantile sample of a histogram summary: the value observed at a
/// given quantile of the distribution.
///
/// The quantile itself is carried as its decimal text (for example
/// `"0.5"` or `"0.99"`), exactly as it should appear inside the
/// `{quantile="..."}` label of a rendered sample line.  The backend
/// renders that text verbatim: it neither validates nor reorders it, so a
/// quantile outside `[0, 1]` simply appears literally in the document.
pub struct QuantileSample {
    /// Decimal text of the quantile, rendered verbatim into the
    /// `quantile` label.
    pub quantile: String,
    /// The value observed at this quantile.
    pub value: u64,
}

/// A value that observes collected metrics.
///
/// From the perspective of an observer, a counter and a gauge are
/// essentially identical, insofar as they are both a single value tied to
/// a key.  From the perspective of a collector, counters and gauges
/// usually have slightly different modes of operation, so both are
/// provided.
///
/// No method of this interface fails: a backend that cannot represent an
/// observation accepts and drops or buffers it, and owns its own failure
/// handling internally.
pub trait MetricsObserver {
    /// Observes a counter value for the metric named by `key`.
    fn observe_counter(&mut self, key: &str, value: u64);

    /// Observes a gauge value for the metric named by `key`.
    fn observe_gauge(&mut self, key: &str, value: i64);

    /// Observes a histogram summary for the metric named by `key`.
    ///
    /// `quantiles` carries the pre-computed quantile samples in the order
    /// they should be rendered; quantiles are expected to lie in
    /// `[0, 1]`, but how values outside that range are treated is left to
    /// the observer.  `sum` and `count` are the total of the underlying
    /// raw observations and their number; they are supplied by the
    /// caller, never recomputed from the samples, which are not a
    /// sufficient statistic for either.
    fn observe_histogram(
        &mut self,
        key: &str,
        quantiles: &Vec<QuantileSample>,
        sum: u64,
        count: u64,
    );
}

} // verus!
