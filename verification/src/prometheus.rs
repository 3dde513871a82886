//! The text-exposition backend: a recorder that serializes observations
//! into a scrape-able text document.

use vstd::prelude::*;
use crate::exposition::append_i64;
use crate::exposition::append_u64;
use crate::exposition::counter_block;
use crate::exposition::gauge_block;
use crate::exposition::histogram_block;
use crate::exposition::norm_key;
use crate::exposition::normalize_key;
use crate::exposition::quantile_line;
use crate::exposition::quantile_lines;
use crate::exposition::samples_view;
use crate::observer::MetricsObserver;
use crate::observer::QuantileSample;

verus! {

/// A metrics backend that renders every observation into a line-oriented
/// text exposition document.
///
/// The document is append-only: it starts empty, every observation call
/// appends one block of newline-terminated lines, and no line is ever
/// rewritten or removed.  Repeated observations for the same key append
/// fresh blocks; the renderer transcribes calls one by one and never
/// merges by key.
///
/// The view of a `PrometheusRecorder` is the character sequence of its
/// document.
pub struct PrometheusRecorder {
    output: String,
}

impl View for PrometheusRecorder {
    type V = Seq<char>;

    closed spec fn view(&self) -> Seq<char> {
        self.output@
    }
}

impl PrometheusRecorder {
    /// Creates a recorder with an empty document.
    pub fn new() -> (r: Self)
        ensures
            r@ == Seq::<char>::empty(),
    {
        PrometheusRecorder { output: String::new() }
    }

    /// The document accumulated so far: a read-only snapshot, one block
    /// of lines per observation, in call order.
    pub fn document(&self) -> (s: &str)
        ensures
            s@ == self@,
    {
        self.output.as_str()
    }
}

impl MetricsObserver for PrometheusRecorder {
    /// Appends a `# TYPE <key> counter` line and a `<key> <value>` sample
    /// line, with the key normalized; nothing already in the document
    /// changes.
    fn observe_counter(&mut self, key: &str, value: u64)
        ensures
            final(self)@ == old(self)@ + counter_block(key@, value),
    {
        let label = normalize_key(key);
        self.output.append("# TYPE ");
        self.output.append(label.as_str());
        self.output.append(" counter\n");
        self.output.append(label.as_str());
        self.output.append(" ");
        append_u64(&mut self.output, value);
        self.output.append("\n");
        proof {
            assert(self@ =~= old(self)@ + counter_block(key@, value));
        }
    }

    /// Appends a `# TYPE <key> gauge` line and a `<key> <value>` sample
    /// line, with the key normalized and the value keeping its sign;
    /// nothing already in the document changes.
    fn observe_gauge(&mut self, key: &str, value: i64)
        ensures
            final(self)@ == old(self)@ + gauge_block(key@, value),
    {
        let label = normalize_key(key);
        self.output.append("# TYPE ");
        self.output.append(label.as_str());
        self.output.append(" gauge\n");
        self.output.append(label.as_str());
        self.output.append(" ");
        append_i64(&mut self.output, value);
        self.output.append("\n");
        proof {
            assert(self@ =~= old(self)@ + gauge_block(key@, value));
        }
    }

    /// Appends a `# TYPE <key> summary` line, one quantile sample line
    /// per supplied sample in exactly the supplied order (quantile text
    /// rendered verbatim, in or out of `[0, 1]`), then the `_sum` and
    /// `_count` lines carrying the caller-supplied totals; nothing
    /// already in the document changes.
    fn observe_histogram(&mut self, key: &str, quantiles: &Vec<QuantileSample>, sum: u64, count: u64)
        ensures
            final(self)@ == old(self)@ + histogram_block(key@, samples_view(quantiles@), sum, count),
    {
        let label = normalize_key(key);
        self.output.append("# TYPE ");
        self.output.append(label.as_str());
        self.output.append(" summary\n");
        let ghost sv = samples_view(quantiles@);
        let mut i: usize = 0;
        while i < quantiles.len()
            invariant
                sv == samples_view(quantiles@),
                sv.len() == quantiles@.len(),
                i <= quantiles@.len(),
                label@ == norm_key(key@),
                self.output@ == old(self).output@ + "# TYPE "@ + label@ + " summary\n"@
                    + quantile_lines(label@, sv.take(i as int)),
            decreases quantiles@.len() - i,
        {
            self.output.append(label.as_str());
            self.output.append("{quantile=\"");
            self.output.append(quantiles[i].quantile.as_str());
            self.output.append("\"} ");
            append_u64(&mut self.output, quantiles[i].value);
            self.output.append("\n");
            proof {
                assert(sv.take(i + 1).drop_last() =~= sv.take(i as int));
                assert(sv.take(i + 1).last() == sv[i as int]);
                assert(quantile_lines(label@, sv.take(i + 1)) == quantile_lines(
                    label@,
                    sv.take(i as int),
                ) + quantile_line(label@, sv[i as int].0, sv[i as int].1));
                assert(self.output@ =~= old(self).output@ + "# TYPE "@ + label@ + " summary\n"@
                    + quantile_lines(label@, sv.take(i + 1)));
            }
            i = i + 1;
        }
        proof {
            assert(sv.take(quantiles@.len() as int) =~= sv);
        }
        self.output.append(label.as_str());
        self.output.append("_sum ");
        append_u64(&mut self.output, sum);
        self.output.append("\n");
        self.output.append(label.as_str());
        self.output.append("_count ");
        append_u64(&mut self.output, count);
        self.output.append("\n");
        proof {
            assert(self@ =~= old(self)@ + histogram_block(key@, sv, sum, count));
        }
    }
}

} // verus!
