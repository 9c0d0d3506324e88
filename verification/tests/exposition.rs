use metrics_encoder::BucketBound;
use metrics_encoder::MetricsEncoder;
use metrics_encoder::SampleValue;

fn fsample(v: f64) -> SampleValue {
    if v.is_nan() {
        SampleValue::NotANumber
    } else if v == f64::INFINITY {
        SampleValue::PosInfinity
    } else if v == f64::NEG_INFINITY {
        SampleValue::NegInfinity
    } else {
        SampleValue::Finite(format!("{}", v))
    }
}

fn fbound(v: f64) -> BucketBound {
    if v == f64::INFINITY {
        BucketBound::PosInfinity
    } else {
        BucketBound::Finite(format!("{}", v))
    }
}

#[test]
fn counter_scenario() {
    let mut enc = MetricsEncoder::new(String::new(), 1000);
    enc.encode_counter("requests_total", &fsample(42.0), "Total requests");
    assert_eq!(
        enc.into_inner(),
        "# HELP requests_total Total requests\n\
         # TYPE requests_total counter\n\
         requests_total 42 1000\n"
    );
}

#[test]
fn gauge_scenario() {
    let mut enc = MetricsEncoder::new(String::new(), 7);
    enc.encode_gauge("queue_depth", &fsample(3.5), "Depth of the queue");
    assert_eq!(
        enc.into_inner(),
        "# HELP queue_depth Depth of the queue\n\
         # TYPE queue_depth gauge\n\
         queue_depth 3.5 7\n"
    );
}

#[test]
fn labeled_counter_scenario() {
    let enc = MetricsEncoder::new(String::new(), 123);
    let out = enc
        .counter_vec("errors", "Errors")
        .value(&[("code", "500")], &fsample(3.0))
        .finish()
        .into_inner();
    assert_eq!(
        out,
        "# HELP errors Errors\n\
         # TYPE errors counter\n\
         errors{code=\"500\"} 3 123\n"
    );
}

#[test]
fn labeled_counter_chained_observations() {
    let enc = MetricsEncoder::new(String::new(), 50);
    let out = enc
        .counter_vec("errors", "Errors")
        .value(&[("code", "500")], &fsample(3.0))
        .value(&[("code", "404")], &fsample(7.0))
        .finish()
        .into_inner();
    assert_eq!(
        out,
        "# HELP errors Errors\n\
         # TYPE errors counter\n\
         errors{code=\"500\"} 3 50\n\
         errors{code=\"404\"} 7 50\n"
    );
}

#[test]
fn gauge_vec_scenario() {
    let enc = MetricsEncoder::new(String::new(), 9);
    let out = enc
        .gauge_vec("temperature", "Temperature by room")
        .value(&[("room", "lab")], &fsample(21.5))
        .finish()
        .into_inner();
    assert_eq!(
        out,
        "# HELP temperature Temperature by room\n\
         # TYPE temperature gauge\n\
         temperature{room=\"lab\"} 21.5 9\n"
    );
}

#[test]
fn histogram_scenario() {
    let mut enc = MetricsEncoder::new(String::new(), 2000);
    let buckets = vec![(fbound(1.0), 2u64), (fbound(5.0), 3u64)];
    enc.encode_histogram("latency", &buckets, &fsample(7.5), "Latency");
    assert_eq!(
        enc.into_inner(),
        "# HELP latency Latency\n\
         # TYPE latency histogram\n\
         latency_bucket{le=\"1\"} 2 2000\n\
         latency_bucket{le=\"5\"} 5 2000\n\
         latency_bucket{le=\"+Inf\"} 5 2000\n\
         latency_sum 7.5 2000\n\
         latency_count 5 2000\n"
    );
}

#[test]
fn histogram_explicit_infinite_bucket() {
    let mut enc = MetricsEncoder::new(String::new(), 10);
    let buckets = vec![(fbound(1.0), 2u64), (fbound(f64::INFINITY), 4u64)];
    enc.encode_histogram("latency", &buckets, &fsample(8.0), "Latency");
    assert_eq!(
        enc.into_inner(),
        "# HELP latency Latency\n\
         # TYPE latency histogram\n\
         latency_bucket{le=\"1\"} 2 10\n\
         latency_bucket{le=\"+Inf\"} 6 10\n\
         latency_sum 8 10\n\
         latency_count 6 10\n"
    );
}

#[test]
fn histogram_empty_buckets() {
    let mut enc = MetricsEncoder::new(String::new(), 3);
    let buckets: Vec<(BucketBound, u64)> = Vec::new();
    enc.encode_histogram("latency", &buckets, &fsample(2.5), "Latency");
    assert_eq!(
        enc.into_inner(),
        "# HELP latency Latency\n\
         # TYPE latency histogram\n\
         latency_bucket{le=\"+Inf\"} 0 3\n\
         latency_sum 2.5 3\n\
         latency_count 0 3\n"
    );
}

#[test]
fn histogram_infinite_bucket_not_last() {
    let mut enc = MetricsEncoder::new(String::new(), 4);
    let buckets = vec![(fbound(f64::INFINITY), 1u64), (fbound(2.0), 1u64)];
    enc.encode_histogram("odd", &buckets, &fsample(3.0), "Odd ordering");
    assert_eq!(
        enc.into_inner(),
        "# HELP odd Odd ordering\n\
         # TYPE odd histogram\n\
         odd_bucket{le=\"+Inf\"} 1 4\n\
         odd_bucket{le=\"2\"} 2 4\n\
         odd_sum 3 4\n\
         odd_count 2 4\n"
    );
}

#[test]
fn histogram_labeled_scenario() {
    let enc = MetricsEncoder::new(String::new(), 77);
    let buckets = vec![(fbound(0.5), 1u64), (fbound(2.5), 2u64)];
    let out = enc
        .histogram_vec("rpc_latency", "RPC latency")
        .histogram(&[("svc", "api")], &buckets, &fsample(3.25))
        .finish()
        .into_inner();
    assert_eq!(
        out,
        "# HELP rpc_latency RPC latency\n\
         # TYPE rpc_latency histogram\n\
         rpc_latency_bucket{svc=\"api\",le=\"0.5\"} 1 77\n\
         rpc_latency_bucket{svc=\"api\",le=\"2.5\"} 3 77\n\
         rpc_latency_bucket{svc=\"api\",le=\"+Inf\"} 3 77\n\
         rpc_latency_sum{svc=\"api\"} 3.25 77\n\
         rpc_latency_count{svc=\"api\"} 3 77\n"
    );
}

#[test]
fn histogram_sum_special_value() {
    let mut enc = MetricsEncoder::new(String::new(), 1);
    let buckets = vec![(fbound(1.0), 1u64)];
    enc.encode_histogram("weird", &buckets, &fsample(f64::NAN), "Weird sum");
    assert_eq!(
        enc.into_inner(),
        "# HELP weird Weird sum\n\
         # TYPE weird histogram\n\
         weird_bucket{le=\"1\"} 1 1\n\
         weird_bucket{le=\"+Inf\"} 1 1\n\
         weird_sum NaN 1\n\
         weird_count 1 1\n"
    );
}

#[test]
fn encoder_appends_to_existing_output() {
    let mut enc = MetricsEncoder::new(String::from("existing line\n"), 5);
    enc.encode_counter("c", &fsample(1.0), "C");
    assert_eq!(
        enc.into_inner(),
        "existing line\n# HELP c C\n# TYPE c counter\nc 1 5\n"
    );
}

#[test]
fn into_inner_returns_buffer_unchanged() {
    let enc = MetricsEncoder::new(String::from("abc"), 0);
    assert_eq!(enc.into_inner(), "abc");
}

#[test]
fn negative_timestamp() {
    let mut enc = MetricsEncoder::new(String::new(), -12);
    enc.encode_counter("c", &fsample(2.0), "C");
    assert_eq!(enc.into_inner(), "# HELP c C\n# TYPE c counter\nc 2 -12\n");
}

#[test]
fn extreme_timestamps() {
    let mut enc = MetricsEncoder::new(String::new(), i64::MIN);
    enc.encode_counter("c", &fsample(1.0), "C");
    assert_eq!(
        enc.into_inner(),
        "# HELP c C\n# TYPE c counter\nc 1 -9223372036854775808\n"
    );
    let mut enc = MetricsEncoder::new(String::new(), i64::MAX);
    enc.encode_gauge("g", &fsample(1.0), "G");
    assert_eq!(
        enc.into_inner(),
        "# HELP g G\n# TYPE g gauge\ng 1 9223372036854775807\n"
    );
}

#[test]
fn header_written_verbatim() {
    let mut enc = MetricsEncoder::new(String::new(), 0);
    enc.encode_header("m", "help text with  spaces", "counter");
    assert_eq!(
        enc.into_inner(),
        "# HELP m help text with  spaces\n# TYPE m counter\n"
    );
}

#[test]
fn labeled_line_with_empty_label_set_keeps_braces() {
    let enc = MetricsEncoder::new(String::new(), 2);
    let out = enc
        .counter_vec("c", "C")
        .value(&[], &fsample(1.0))
        .finish()
        .into_inner();
    assert_eq!(out, "# HELP c C\n# TYPE c counter\nc{} 1 2\n");
}

#[test]
fn single_value_custom_type_token() {
    let mut enc = MetricsEncoder::new(String::new(), 6);
    enc.encode_single_value("gauge", "pressure", &fsample(0.5), "Pressure");
    assert_eq!(
        enc.into_inner(),
        "# HELP pressure Pressure\n# TYPE pressure gauge\npressure 0.5 6\n"
    );
}
