//! The exposition encoder: headers, sample lines, and histogram emission.

use vstd::prelude::*;

use crate::labels::all_keys_valid;
use crate::labels::labels_text;
use crate::labels::labels_view;
use crate::labels::push_labels;
use crate::labels::push_labels_with_le;
use crate::names::is_valid_name;
use crate::text::dec_i64_text;
use crate::text::dec_u64_text;
use crate::text::push_i64_text;
use crate::text::push_str_text;
use crate::text::push_u64_text;
use crate::value::bound_text;
use crate::value::value_text;
use crate::value::BucketBound;
use crate::value::SampleValue;

verus! {

// ---------------------------------------------------------------------------
// The shapes of the emitted lines
// ---------------------------------------------------------------------------

/// The two-line metadata header of one metric family.
pub open spec fn header_text(name: Seq<char>, help: Seq<char>, typ: Seq<char>) -> Seq<char> {
    "# HELP "@ + name + " "@ + help + "\n"@ + "# TYPE "@ + name + " "@ + typ + "\n"@
}

/// A data line without braces: `name value timestamp`.
pub open spec fn unlabeled_line(name: Seq<char>, value: Seq<char>, ts: int) -> Seq<char> {
    name + " "@ + value + " "@ + dec_i64_text(ts) + "\n"@
}

/// A data line with braces: `name{k="v",...} value timestamp`. The braces are
/// present even when the label set is empty.
pub open spec fn labeled_line(
    name: Seq<char>,
    labels: Seq<(Seq<char>, Seq<char>)>,
    value: Seq<char>,
    ts: int,
) -> Seq<char> {
    name + "{"@ + labels_text(labels) + "}"@ + " "@ + value + " "@ + dec_i64_text(ts) + "\n"@
}

/// A histogram series line (`_sum`, `_count`): braces are omitted entirely
/// when the label set is empty.
pub open spec fn series_line(
    name: Seq<char>,
    labels: Seq<(Seq<char>, Seq<char>)>,
    value: Seq<char>,
    ts: int,
) -> Seq<char> {
    if labels.len() == 0 {
        unlabeled_line(name, value, ts)
    } else {
        labeled_line(name, labels, value, ts)
    }
}

/// One histogram bucket line: the caller's labels with `le="bound"` appended,
/// and the cumulative count as the value.
pub open spec fn bucket_line(
    name: Seq<char>,
    labels: Seq<(Seq<char>, Seq<char>)>,
    bound: Seq<char>,
    cum: nat,
    ts: int,
) -> Seq<char> {
    labeled_line(name + "_bucket"@, labels.push(("le"@, bound)), dec_u64_text(cum), ts)
}

// ---------------------------------------------------------------------------
// Histogram bucket accumulation
// ---------------------------------------------------------------------------

/// The sum of all per-bucket counts.
pub open spec fn bucket_total(bs: Seq<(BucketBound, u64)>) -> nat
    decreases bs.len(),
{
    if bs.len() == 0 {
        0
    } else {
        (bucket_total(bs.drop_last()) + bs.last().1) as nat
    }
}

/// Whether some bucket in the input is explicitly bounded at infinity.
pub open spec fn has_infinite_bound(bs: Seq<(BucketBound, u64)>) -> bool {
    exists|i: int| 0 <= i < bs.len() && (#[trigger] bs[i]).0 is PosInfinity
}

/// The caller's buckets with each per-bucket count replaced by the running
/// cumulative count, in the order given.
pub open spec fn cumulative_buckets(bs: Seq<(BucketBound, u64)>) -> Seq<(BucketBound, nat)>
    decreases bs.len(),
{
    if bs.len() == 0 {
        Seq::empty()
    } else {
        cumulative_buckets(bs.drop_last()).push((bs.last().0, bucket_total(bs)))
    }
}

/// The bucket sequence as emitted: the cumulative buckets, with a terminal
/// infinite bucket synthesized at the total count when the caller supplied
/// none explicitly.
pub open spec fn emitted_buckets(bs: Seq<(BucketBound, u64)>) -> Seq<(BucketBound, nat)> {
    if has_infinite_bound(bs) {
        cumulative_buckets(bs)
    } else {
        cumulative_buckets(bs).push((BucketBound::PosInfinity, bucket_total(bs)))
    }
}

/// The bucket lines for a sequence of (bound, cumulative count) pairs.
pub open spec fn bucket_lines(
    name: Seq<char>,
    labels: Seq<(Seq<char>, Seq<char>)>,
    pairs: Seq<(BucketBound, nat)>,
    ts: int,
) -> Seq<char>
    decreases pairs.len(),
{
    if pairs.len() == 0 {
        Seq::empty()
    } else {
        bucket_lines(name, labels, pairs.drop_last(), ts) + bucket_line(
            name,
            labels,
            bound_text(pairs.last().0),
            pairs.last().1,
            ts,
        )
    }
}

/// The complete text of one histogram observation under one label set:
/// the bucket lines, then `_sum`, then `_count`.
pub open spec fn histogram_text(
    name: Seq<char>,
    labels: Seq<(Seq<char>, Seq<char>)>,
    bs: Seq<(BucketBound, u64)>,
    sum_text: Seq<char>,
    ts: int,
) -> Seq<char> {
    bucket_lines(name, labels, emitted_buckets(bs), ts) + series_line(
        name + "_sum"@,
        labels,
        sum_text,
        ts,
    ) + series_line(name + "_count"@, labels, dec_u64_text(bucket_total(bs)), ts)
}

// ---------------------------------------------------------------------------
// Facts about prefixes of the bucket sequence
// ---------------------------------------------------------------------------

proof fn lemma_bucket_take_succ(bs: Seq<(BucketBound, u64)>, i: int)
    requires
        0 <= i < bs.len(),
    ensures
        bucket_total(bs.take(i + 1)) == bucket_total(bs.take(i)) + bs[i].1,
        cumulative_buckets(bs.take(i + 1)) == cumulative_buckets(bs.take(i)).push(
            (bs[i].0, bucket_total(bs.take(i + 1))),
        ),
        has_infinite_bound(bs.take(i + 1)) == (has_infinite_bound(bs.take(i)) || bs[i].0
            is PosInfinity),
{
    assert(bs.take(i + 1).drop_last() =~= bs.take(i));
    assert(bs.take(i + 1).last() == bs[i]);
    if has_infinite_bound(bs.take(i)) {
        let j = choose|j: int| 0 <= j < bs.take(i).len() && (#[trigger] bs.take(i)[j]).0
            is PosInfinity;
        assert(bs.take(i + 1)[j].0 is PosInfinity);
    }
    if bs[i].0 is PosInfinity {
        assert(bs.take(i + 1)[i].0 is PosInfinity);
    }
    if has_infinite_bound(bs.take(i + 1)) {
        let j = choose|j: int| 0 <= j < bs.take(i + 1).len() && (#[trigger] bs.take(i + 1)[j]).0
            is PosInfinity;
        if j < i {
            assert(bs.take(i)[j].0 is PosInfinity);
        }
    }
}

proof fn lemma_bucket_total_take_le(bs: Seq<(BucketBound, u64)>, i: int)
    requires
        0 <= i <= bs.len(),
    ensures
        bucket_total(bs.take(i)) <= bucket_total(bs),
    decreases bs.len() - i,
{
    if i == bs.len() {
        assert(bs.take(i) =~= bs);
    } else {
        lemma_bucket_take_succ(bs, i);
        lemma_bucket_total_take_le(bs, i + 1);
    }
}

// ---------------------------------------------------------------------------
// Emission
// ---------------------------------------------------------------------------

/// Appends the rendered form of a sample value to `buf`.
fn push_value(buf: &mut Vec<char>, v: &SampleValue)
    ensures
        final(buf)@ == old(buf)@ + value_text(*v),
{
    match v {
        SampleValue::NotANumber => push_str_text(buf, "NaN"),
        SampleValue::PosInfinity => push_str_text(buf, "+Inf"),
        SampleValue::NegInfinity => push_str_text(buf, "-Inf"),
        SampleValue::Finite(t) => push_str_text(buf, t.as_str()),
    }
}

/// Appends one bucket line for the bound under the cursor.
fn push_bucket_line(
    buf: &mut Vec<char>,
    name: &str,
    labels: &[(&str, &str)],
    bound: &BucketBound,
    cum: u64,
    ts: i64,
)
    ensures
        final(buf)@ == old(buf)@ + bucket_line(
            name@,
            labels_view(labels@),
            bound_text(*bound),
            cum as nat,
            ts as int,
        ),
{
    push_str_text(buf, name);
    push_str_text(buf, "_bucket");
    push_str_text(buf, "{");
    match bound {
        BucketBound::PosInfinity => push_labels_with_le(buf, labels, "+Inf"),
        BucketBound::Finite(t) => push_labels_with_le(buf, labels, t.as_str()),
    }
    push_str_text(buf, "}");
    push_str_text(buf, " ");
    push_u64_text(buf, cum);
    push_str_text(buf, " ");
    push_i64_text(buf, ts);
    push_str_text(buf, "\n");
    assert(buf@ =~= old(buf)@ + bucket_line(
        name@,
        labels_view(labels@),
        bound_text(*bound),
        cum as nat,
        ts as int,
    ));
}

/// Appends one `_sum`- or `_count`-style series line, omitting braces when
/// the label set is empty.
fn push_series_line(
    buf: &mut Vec<char>,
    name: &str,
    suffix: &str,
    labels: &[(&str, &str)],
    value: &SampleValue,
    ts: i64,
)
    ensures
        final(buf)@ == old(buf)@ + series_line(
            name@ + suffix@,
            labels_view(labels@),
            value_text(*value),
            ts as int,
        ),
{
    push_str_text(buf, name);
    push_str_text(buf, suffix);
    if labels.len() > 0 {
        push_str_text(buf, "{");
        push_labels(buf, labels);
        push_str_text(buf, "}");
    }
    push_str_text(buf, " ");
    push_value(buf, value);
    push_str_text(buf, " ");
    push_i64_text(buf, ts);
    push_str_text(buf, "\n");
    proof {
        if labels@.len() == 0 {
            assert(labels_view(labels@).len() == 0);
            assert(buf@ =~= old(buf)@ + series_line(
                name@ + suffix@,
                labels_view(labels@),
                value_text(*value),
                ts as int,
            ));
        } else {
            assert(labels_view(labels@).len() > 0);
            assert(buf@ =~= old(buf)@ + series_line(
                name@ + suffix@,
                labels_view(labels@),
                value_text(*value),
                ts as int,
            ));
        }
    }
}

/// Appends a complete histogram observation: cumulative bucket lines in the
/// caller's order, a synthesized terminal `+Inf` bucket when none was
/// supplied, then the `_sum` and `_count` lines.
fn push_histogram(
    buf: &mut Vec<char>,
    name: &str,
    labels: &[(&str, &str)],
    buckets: &[(BucketBound, u64)],
    sum: &SampleValue,
    ts: i64,
)
    requires
        bucket_total(buckets@) <= u64::MAX,
    ensures
        final(buf)@ == old(buf)@ + histogram_text(
            name@,
            labels_view(labels@),
            buckets@,
            value_text(*sum),
            ts as int,
        ),
{
    let ghost buf0 = buf@;
    let ghost bs = buckets@;
    let ghost lv = labels_view(labels@);
    let mut total: u64 = 0;
    let mut saw_infinity = false;
    let mut i: usize = 0;
    while i < buckets.len()
        invariant
            i <= bs.len(),
            bs == buckets@,
            lv == labels_view(labels@),
            bucket_total(bs) <= u64::MAX,
            total as nat == bucket_total(bs.take(i as int)),
            saw_infinity == has_infinite_bound(bs.take(i as int)),
            buf@ == buf0 + bucket_lines(name@, lv, cumulative_buckets(bs.take(i as int)), ts as int),
        decreases bs.len() - i,
    {
        proof {
            lemma_bucket_take_succ(bs, i as int);
            lemma_bucket_total_take_le(bs, i + 1);
        }
        let pair = &buckets[i];
        total = total + pair.1;
        if matches!(&pair.0, BucketBound::PosInfinity) {
            saw_infinity = true;
        }
        push_bucket_line(buf, name, labels, &pair.0, total, ts);
        proof {
            let taken = cumulative_buckets(bs.take(i as int));
            let grown = cumulative_buckets(bs.take(i + 1));
            assert(grown.drop_last() =~= taken);
            assert(buf@ =~= buf0 + bucket_lines(name@, lv, grown, ts as int));
        }
        i += 1;
    }
    assert(bs.take(bs.len() as int) =~= bs);
    if !saw_infinity {
        push_bucket_line(buf, name, labels, &BucketBound::PosInfinity, total, ts);
        proof {
            let emitted = emitted_buckets(bs);
            assert(emitted.drop_last() =~= cumulative_buckets(bs));
            assert(buf@ =~= buf0 + bucket_lines(name@, lv, emitted, ts as int));
        }
    }
    push_series_line(buf, name, "_sum", labels, sum, ts);
    push_count_line(buf, name, labels, total, ts);
    assert(buf@ =~= buf0 + histogram_text(name@, lv, bs, value_text(*sum), ts as int));
}

/// Appends the `_count` line, whose value is the accumulated total of the
/// per-bucket counts.
fn push_count_line(buf: &mut Vec<char>, name: &str, labels: &[(&str, &str)], total: u64, ts: i64)
    ensures
        final(buf)@ == old(buf)@ + series_line(
            name@ + "_count"@,
            labels_view(labels@),
            dec_u64_text(total as nat),
            ts as int,
        ),
{
    push_str_text(buf, name);
    push_str_text(buf, "_count");
    if labels.len() > 0 {
        push_str_text(buf, "{");
        push_labels(buf, labels);
        push_str_text(buf, "}");
    }
    push_str_text(buf, " ");
    push_u64_text(buf, total);
    push_str_text(buf, " ");
    push_i64_text(buf, ts);
    push_str_text(buf, "\n");
    proof {
        if labels@.len() == 0 {
            assert(labels_view(labels@).len() == 0);
        } else {
            assert(labels_view(labels@).len() > 0);
        }
        assert(buf@ =~= old(buf)@ + series_line(
            name@ + "_count"@,
            labels_view(labels@),
            dec_u64_text(total as nat),
            ts as int,
        ));
    }
}

/// Relies on `String`'s `FromIterator<char>` implementation: collecting an
/// iterator of chars builds a string containing exactly those chars in order.
#[verifier::external_body]
fn chars_to_string(v: &Vec<char>) -> (s: String)
    ensures
        s@ == v@,
{
    v.iter().collect()
}

// ---------------------------------------------------------------------------
// The encoder and its builders
// ---------------------------------------------------------------------------

/// Encodes metrics in the Prometheus text exposition format.
///
/// The encoder owns an output buffer and a fixed timestamp, in milliseconds
/// since the epoch, stamped onto every sample emitted during one encoding
/// pass. Its view is the text written so far.
pub struct MetricsEncoder {
    buf: Vec<char>,
    now_millis: i64,
}

impl View for MetricsEncoder {
    type V = Seq<char>;

    closed spec fn view(&self) -> Seq<char> {
        self.buf@
    }
}

/// A helper for encoding several labeled observations of one counter or
/// gauge under a single header. See [`MetricsEncoder::counter_vec`] and
/// [`MetricsEncoder::gauge_vec`].
pub struct LabeledMetricsBuilder<'a> {
    encoder: MetricsEncoder,
    name: &'a str,
}

impl<'a> View for LabeledMetricsBuilder<'a> {
    type V = Seq<char>;

    closed spec fn view(&self) -> Seq<char> {
        self.encoder@
    }
}

/// A helper for encoding labeled histogram observations under a single
/// header. See [`MetricsEncoder::histogram_vec`].
pub struct LabeledHistogramBuilder<'a> {
    encoder: MetricsEncoder,
    name: &'a str,
}

impl<'a> View for LabeledHistogramBuilder<'a> {
    type V = Seq<char>;

    closed spec fn view(&self) -> Seq<char> {
        self.encoder@
    }
}

impl MetricsEncoder {
    /// The timestamp every sample of this pass is stamped with.
    pub closed spec fn timestamp(&self) -> int {
        self.now_millis as int
    }

    /// Constructs an encoder that appends to the given output, stamping every
    /// sample with the given timestamp.
    pub fn new(writer: String, now_millis: i64) -> (r: Self)
        ensures
            r@ == writer@,
            r.timestamp() == now_millis as int,
    {
        let mut buf: Vec<char> = Vec::new();
        push_str_text(&mut buf, writer.as_str());
        assert(buf@ =~= writer@);
        MetricsEncoder { buf, now_millis }
    }

    /// Hands the accumulated output back to the caller.
    pub fn into_inner(self) -> (w: String)
        ensures
            w@ == self@,
    {
        chars_to_string(&self.buf)
    }

    /// Writes the two-line `# HELP` / `# TYPE` header of one metric family.
    /// The help text is written verbatim; it is the caller's responsibility.
    pub fn encode_header(&mut self, name: &str, help: &str, typ: &str)
        ensures
            final(self)@ == old(self)@ + header_text(name@, help@, typ@),
            final(self).timestamp() == old(self).timestamp(),
    {
        push_str_text(&mut self.buf, "# HELP ");
        push_str_text(&mut self.buf, name);
        push_str_text(&mut self.buf, " ");
        push_str_text(&mut self.buf, help);
        push_str_text(&mut self.buf, "\n");
        push_str_text(&mut self.buf, "# TYPE ");
        push_str_text(&mut self.buf, name);
        push_str_text(&mut self.buf, " ");
        push_str_text(&mut self.buf, typ);
        push_str_text(&mut self.buf, "\n");
        assert(self.buf@ =~= old(self).buf@ + header_text(name@, help@, typ@));
    }

    /// Serializes a label set to the brace-interior text `k1="v1",k2="v2",...`.
    pub fn encode_labels(labels: &[(&str, &str)]) -> (r: String)
        requires
            all_keys_valid(labels@),
        ensures
            r@ == labels_text(labels_view(labels@)),
    {
        let mut buf: Vec<char> = Vec::new();
        push_labels(&mut buf, labels);
        chars_to_string(&buf)
    }

    /// Encodes the header and the single unlabeled data line of a metric.
    pub fn encode_single_value(&mut self, typ: &str, name: &str, value: &SampleValue, help: &str)
        requires
            is_valid_name(name@),
        ensures
            final(self)@ == old(self)@ + header_text(name@, help@, typ@) + unlabeled_line(
                name@,
                value_text(*value),
                old(self).timestamp(),
            ),
            final(self).timestamp() == old(self).timestamp(),
    {
        self.encode_header(name, help, typ);
        push_str_text(&mut self.buf, name);
        push_str_text(&mut self.buf, " ");
        push_value(&mut self.buf, value);
        push_str_text(&mut self.buf, " ");
        let ts = self.now_millis;
        push_i64_text(&mut self.buf, ts);
        push_str_text(&mut self.buf, "\n");
        assert(self.buf@ =~= old(self).buf@ + header_text(name@, help@, typ@) + unlabeled_line(
            name@,
            value_text(*value),
            old(self).timestamp(),
        ));
    }

    /// Encodes the metadata and the value of a counter.
    pub fn encode_counter(&mut self, name: &str, value: &SampleValue, help: &str)
        requires
            is_valid_name(name@),
        ensures
            final(self)@ == old(self)@ + header_text(name@, help@, "counter"@) + unlabeled_line(
                name@,
                value_text(*value),
                old(self).timestamp(),
            ),
            final(self).timestamp() == old(self).timestamp(),
    {
        self.encode_single_value("counter", name, value, help);
    }

    /// Encodes the metadata and the value of a gauge.
    pub fn encode_gauge(&mut self, name: &str, value: &SampleValue, help: &str)
        requires
            is_valid_name(name@),
        ensures
            final(self)@ == old(self)@ + header_text(name@, help@, "gauge"@) + unlabeled_line(
                name@,
                value_text(*value),
                old(self).timestamp(),
            ),
            final(self).timestamp() == old(self).timestamp(),
    {
        self.encode_single_value("gauge", name, value, help);
    }

    /// Appends one labeled data line, `name{...} value timestamp`.
    pub fn encode_value_with_labels(
        &mut self,
        name: &str,
        label_values: &[(&str, &str)],
        value: &SampleValue,
    )
        requires
            all_keys_valid(label_values@),
        ensures
            final(self)@ == old(self)@ + labeled_line(
                name@,
                labels_view(label_values@),
                value_text(*value),
                old(self).timestamp(),
            ),
            final(self).timestamp() == old(self).timestamp(),
    {
        push_str_text(&mut self.buf, name);
        push_str_text(&mut self.buf, "{");
        push_labels(&mut self.buf, label_values);
        push_str_text(&mut self.buf, "}");
        push_str_text(&mut self.buf, " ");
        push_value(&mut self.buf, value);
        push_str_text(&mut self.buf, " ");
        let ts = self.now_millis;
        push_i64_text(&mut self.buf, ts);
        push_str_text(&mut self.buf, "\n");
        assert(self.buf@ =~= old(self).buf@ + labeled_line(
            name@,
            labels_view(label_values@),
            value_text(*value),
            old(self).timestamp(),
        ));
    }

    /// Appends one complete histogram observation — bucket lines, `_sum` and
    /// `_count` — under the given label set, without a header.
    ///
    /// `sum` is the sum of all observed values, before they were put into
    /// buckets. `buckets` pairs each bucket bound with the number of items
    /// *in* that bucket — per-bucket counts, not cumulative ones.
    pub fn encode_histogram_with_labels(
        &mut self,
        name: &str,
        labels: &[(&str, &str)],
        buckets: &[(BucketBound, u64)],
        sum: &SampleValue,
    )
        requires
            all_keys_valid(labels@),
            bucket_total(buckets@) <= u64::MAX,
        ensures
            final(self)@ == old(self)@ + histogram_text(
                name@,
                labels_view(labels@),
                buckets@,
                value_text(*sum),
                old(self).timestamp(),
            ),
            final(self).timestamp() == old(self).timestamp(),
    {
        let ts = self.now_millis;
        push_histogram(&mut self.buf, name, labels, buckets, sum, ts);
    }

    /// Encodes the metadata and one unlabeled observation of a histogram.
    ///
    /// `sum` is the sum of all observed values, before they were put into
    /// buckets. `buckets` pairs each bucket bound with the number of items
    /// *in* that bucket — per-bucket counts, not cumulative ones.
    pub fn encode_histogram(
        &mut self,
        name: &str,
        buckets: &[(BucketBound, u64)],
        sum: &SampleValue,
        help: &str,
    )
        requires
            is_valid_name(name@),
            bucket_total(buckets@) <= u64::MAX,
        ensures
            final(self)@ == old(self)@ + header_text(name@, help@, "histogram"@) + histogram_text(
                name@,
                Seq::empty(),
                buckets@,
                value_text(*sum),
                old(self).timestamp(),
            ),
            final(self).timestamp() == old(self).timestamp(),
    {
        self.encode_header(name, help, "histogram");
        let no_labels: Vec<(&str, &str)> = Vec::new();
        self.encode_histogram_with_labels(name, no_labels.as_slice(), buckets, sum);
        proof {
            assert(labels_view(no_labels@) =~= Seq::<(Seq<char>, Seq<char>)>::empty());
            assert(self.buf@ =~= old(self).buf@ + header_text(name@, help@, "histogram"@)
                + histogram_text(
                name@,
                Seq::empty(),
                buckets@,
                value_text(*sum),
                old(self).timestamp(),
            ));
        }
    }

    /// Starts encoding a histogram whose observations carry labels: writes
    /// the header and returns a builder bound to the metric name.
    pub fn histogram_vec<'a>(self, name: &'a str, help: &str) -> (b: LabeledHistogramBuilder<'a>)
        requires
            is_valid_name(name@),
        ensures
            b@ == self@ + header_text(name@, help@, "histogram"@),
            b.metric_name() == name@,
            b.timestamp() == self.timestamp(),
    {
        let mut enc = self;
        enc.encode_header(name, help, "histogram");
        LabeledHistogramBuilder { encoder: enc, name }
    }

    /// Starts encoding a counter whose observations carry labels: writes the
    /// header and returns a builder bound to the metric name.
    pub fn counter_vec<'a>(self, name: &'a str, help: &str) -> (b: LabeledMetricsBuilder<'a>)
        requires
            is_valid_name(name@),
        ensures
            b@ == self@ + header_text(name@, help@, "counter"@),
            b.metric_name() == name@,
            b.timestamp() == self.timestamp(),
    {
        let mut enc = self;
        enc.encode_header(name, help, "counter");
        LabeledMetricsBuilder { encoder: enc, name }
    }

    /// Starts encoding a gauge whose observations carry labels: writes the
    /// header and returns a builder bound to the metric name.
    pub fn gauge_vec<'a>(self, name: &'a str, help: &str) -> (b: LabeledMetricsBuilder<'a>)
        requires
            is_valid_name(name@),
        ensures
            b@ == self@ + header_text(name@, help@, "gauge"@),
            b.metric_name() == name@,
            b.timestamp() == self.timestamp(),
    {
        let mut enc = self;
        enc.encode_header(name, help, "gauge");
        LabeledMetricsBuilder { encoder: enc, name }
    }
}

impl<'a> LabeledMetricsBuilder<'a> {
    /// The metric name every line of this builder is emitted under.
    pub closed spec fn metric_name(&self) -> Seq<char> {
        self.name@
    }

    /// The timestamp every sample of this pass is stamped with.
    pub closed spec fn timestamp(&self) -> int {
        self.encoder.timestamp()
    }

    /// Encodes the metric value observed for the given values of labels,
    /// returning the builder for chaining further observations.
    pub fn value(self, labels: &[(&str, &str)], value: &SampleValue) -> (r: Self)
        requires
            all_keys_valid(labels@),
        ensures
            r@ == self@ + labeled_line(
                self.metric_name(),
                labels_view(labels@),
                value_text(*value),
                self.timestamp(),
            ),
            r.metric_name() == self.metric_name(),
            r.timestamp() == self.timestamp(),
    {
        let mut b = self;
        b.encoder.encode_value_with_labels(b.name, labels, value);
        b
    }

    /// Ends the builder, handing the encoder back.
    pub fn finish(self) -> (r: MetricsEncoder)
        ensures
            r@ == self@,
            r.timestamp() == self.timestamp(),
    {
        self.encoder
    }
}

impl<'a> LabeledHistogramBuilder<'a> {
    /// The metric name every line of this builder is emitted under.
    pub closed spec fn metric_name(&self) -> Seq<char> {
        self.name@
    }

    /// The timestamp every sample of this pass is stamped with.
    pub closed spec fn timestamp(&self) -> int {
        self.encoder.timestamp()
    }

    /// Encodes one histogram observation for the given values of labels,
    /// returning the builder for chaining further observations.
    ///
    /// `sum` is the sum of all observed values, before they were put into
    /// buckets. `buckets` pairs each bucket bound with the number of items
    /// *in* that bucket — per-bucket counts, not cumulative ones.
    pub fn histogram(
        self,
        labels: &[(&str, &str)],
        buckets: &[(BucketBound, u64)],
        sum: &SampleValue,
    ) -> (r: Self)
        requires
            all_keys_valid(labels@),
            bucket_total(buckets@) <= u64::MAX,
        ensures
            r@ == self@ + histogram_text(
                self.metric_name(),
                labels_view(labels@),
                buckets@,
                value_text(*sum),
                self.timestamp(),
            ),
            r.metric_name() == self.metric_name(),
            r.timestamp() == self.timestamp(),
    {
        let mut b = self;
        b.encoder.encode_histogram_with_labels(b.name, labels, buckets, sum);
        b
    }

    /// Ends the builder, handing the encoder back.
    pub fn finish(self) -> (r: MetricsEncoder)
        ensures
            r@ == self@,
            r.timestamp() == self.timestamp(),
    {
        self.encoder
    }
}

} // verus!
