//! A verified encoder for the Prometheus text exposition format.
//!
//! The encoder renders counters, gauges and histograms — optionally labeled —
//! into the line-oriented text form that Prometheus scrapers consume. Every
//! encoding function carries a contract that pins the appended text down
//! exactly, as a function of the metric name, the label set, the rendered
//! sample value and the encoder's timestamp.

mod encoder;
mod labels;
mod laws;
mod names;
mod text;
mod value;

pub use encoder::bucket_line;
pub use encoder::bucket_lines;
pub use encoder::bucket_total;
pub use encoder::cumulative_buckets;
pub use encoder::emitted_buckets;
pub use encoder::has_infinite_bound;
pub use encoder::header_text;
pub use encoder::histogram_text;
pub use encoder::labeled_line;
pub use encoder::series_line;
pub use encoder::unlabeled_line;
pub use encoder::LabeledHistogramBuilder;
pub use encoder::LabeledMetricsBuilder;
pub use encoder::MetricsEncoder;
pub use labels::all_keys_valid;
pub use labels::label_pair_text;
pub use labels::labels_text;
pub use labels::labels_view;
pub use laws::lemma_cumulative_buckets_structure;
pub use laws::lemma_escape_round_trip;
pub use laws::lemma_histogram_count_consistency;
pub use laws::lemma_synthesized_infinite_bucket;
pub use laws::unescape_code;
pub use laws::unescape_text;
pub use names::is_name_char;
pub use names::is_name_start;
pub use names::is_valid_name;
pub use names::validate_prometheus_name;
pub use text::dec_i64_text;
pub use text::dec_u64_text;
pub use text::escape_char;
pub use text::escape_text;
pub use value::bound_text;
pub use value::format_value;
pub use value::value_text;
pub use value::BucketBound;
pub use value::SampleValue;
