use metrics_prometheus::MetricsObserver;
use metrics_prometheus::PrometheusRecorder;
use metrics_prometheus::QuantileSample;
use metrics_prometheus::exposition::normalize_key;

#[test]
fn counter_renders_two_lines() {
    let mut recorder = PrometheusRecorder::new();
    recorder.observe_counter("requests", 7);
    assert_eq!(recorder.document(), "# TYPE requests counter\nrequests 7\n");
    assert_eq!(recorder.document().lines().count(), 2);
}

#[test]
fn counter_zero_and_max() {
    let mut recorder = PrometheusRecorder::new();
    recorder.observe_counter("zero", 0);
    recorder.observe_counter("big", u64::MAX);
    assert_eq!(
        recorder.document(),
        "# TYPE zero counter\nzero 0\n# TYPE big counter\nbig 18446744073709551615\n"
    );
}

#[test]
fn counter_key_dots_become_underscores() {
    let mut recorder = PrometheusRecorder::new();
    recorder.observe_counter("http.requests.total", 3);
    assert_eq!(
        recorder.document(),
        "# TYPE http_requests_total counter\nhttp_requests_total 3\n"
    );
    for line in recorder.document().lines() {
        let identifier = line.strip_prefix("# TYPE ").unwrap_or(line);
        let identifier = identifier.split(' ').next().unwrap();
        assert!(!identifier.contains('.'));
    }
}

#[test]
fn normalize_key_replaces_every_dot() {
    assert_eq!(normalize_key("a.b.c"), "a_b_c");
    assert_eq!(normalize_key("...."), "____");
    assert_eq!(normalize_key("plain"), "plain");
}

#[test]
fn normalize_key_is_idempotent() {
    let once = normalize_key("req.latency.p99");
    let twice = normalize_key(&once);
    assert_eq!(once, twice);
    assert_eq!(normalize_key("already_normal"), "already_normal");
}

#[test]
fn gauge_preserves_sign_and_round_trips() {
    let mut recorder = PrometheusRecorder::new();
    recorder.observe_gauge("temperature", -42);
    assert_eq!(
        recorder.document(),
        "# TYPE temperature gauge\ntemperature -42\n"
    );
    let sample = recorder.document().lines().nth(1).unwrap();
    let rendered = sample.split(' ').nth(1).unwrap();
    assert_eq!(rendered.parse::<i64>().unwrap(), -42);
}

#[test]
fn gauge_extreme_values_round_trip() {
    for value in [i64::MIN, -1, 0, 1, i64::MAX] {
        let mut recorder = PrometheusRecorder::new();
        recorder.observe_gauge("g", value);
        let sample = recorder.document().lines().nth(1).unwrap();
        let rendered = sample.split(' ').nth(1).unwrap();
        assert_eq!(rendered.parse::<i64>().unwrap(), value);
        assert_eq!(rendered.starts_with('-'), value < 0);
    }
}

#[test]
fn histogram_summary_exact_document() {
    let mut recorder = PrometheusRecorder::new();
    let samples = vec![
        QuantileSample { quantile: (0.5f64).to_string(), value: 10 },
        QuantileSample { quantile: (0.9f64).to_string(), value: 20 },
        QuantileSample { quantile: (0.99f64).to_string(), value: 30 },
    ];
    recorder.observe_histogram("req.latency", &samples, 500, 100);
    assert_eq!(
        recorder.document(),
        "# TYPE req_latency summary\n\
         req_latency{quantile=\"0.5\"} 10\n\
         req_latency{quantile=\"0.9\"} 20\n\
         req_latency{quantile=\"0.99\"} 30\n\
         req_latency_sum 500\n\
         req_latency_count 100\n"
    );
}

#[test]
fn histogram_keeps_supplied_order_and_out_of_range_quantiles() {
    let mut recorder = PrometheusRecorder::new();
    let samples = vec![
        QuantileSample { quantile: (1.5f64).to_string(), value: 9 },
        QuantileSample { quantile: (0.99f64).to_string(), value: 7 },
        QuantileSample { quantile: (0.5f64).to_string(), value: 5 },
    ];
    recorder.observe_histogram("lat", &samples, 21, 3);
    assert_eq!(
        recorder.document(),
        "# TYPE lat summary\n\
         lat{quantile=\"1.5\"} 9\n\
         lat{quantile=\"0.99\"} 7\n\
         lat{quantile=\"0.5\"} 5\n\
         lat_sum 21\n\
         lat_count 3\n"
    );
}

#[test]
fn histogram_with_no_samples_still_reports_totals() {
    let mut recorder = PrometheusRecorder::new();
    let samples: Vec<QuantileSample> = Vec::new();
    recorder.observe_histogram("empty", &samples, 0, 0);
    assert_eq!(
        recorder.document(),
        "# TYPE empty summary\nempty_sum 0\nempty_count 0\n"
    );
}

#[test]
fn document_is_concatenation_of_blocks_in_call_order() {
    let mut recorder = PrometheusRecorder::new();
    recorder.observe_counter("hits", 1);
    let after_first = recorder.document().to_string();
    recorder.observe_gauge("depth", -3);
    let after_second = recorder.document().to_string();
    recorder.observe_counter("hits", 2);
    assert!(after_second.starts_with(&after_first));
    assert!(recorder.document().starts_with(&after_second));
    assert_eq!(
        recorder.document(),
        "# TYPE hits counter\nhits 1\n\
         # TYPE depth gauge\ndepth -3\n\
         # TYPE hits counter\nhits 2\n"
    );
}

#[test]
fn repeated_keys_append_fresh_blocks() {
    let mut recorder = PrometheusRecorder::new();
    recorder.observe_counter("dup", 1);
    recorder.observe_counter("dup", 1);
    assert_eq!(
        recorder.document(),
        "# TYPE dup counter\ndup 1\n# TYPE dup counter\ndup 1\n"
    );
}

#[test]
fn empty_document_before_any_observation() {
    let recorder = PrometheusRecorder::new();
    assert_eq!(recorder.document(), "");
}

#[test]
fn unusual_keys_render_literally() {
    let mut recorder = PrometheusRecorder::new();
    recorder.observe_counter("", 5);
    assert_eq!(recorder.document(), "# TYPE  counter\n 5\n");
}
