//! A minimal, backend-agnostic metrics facade together with one concrete
//! backend: a renderer that serializes counter, gauge and histogram-summary
//! observations into a line-oriented text exposition document.
//!
//! The crate has two halves:
//!
//! - the capability interfaces ([`recording::MetricsRecorder`] and
//!   [`observer::MetricsObserver`]), which let producers report metric
//!   values without naming a concrete backend, and
//! - the exposition backend ([`prometheus::PrometheusRecorder`]), which
//!   implements the observer interface by appending newline-terminated
//!   lines to an internal document.
//!
//! The wire format itself is modelled by the spec functions in
//! [`exposition`]; every observation method of the backend is proved to
//! append exactly the block of lines that the model describes.

pub mod exposition;
pub mod laws;
pub mod observer;
pub mod prometheus;
pub mod recording;

pub use observer::MetricsObserver;
pub use observer::QuantileSample;
pub use prometheus::PrometheusRecorder;
pub use recording::MetricsRecorder;
