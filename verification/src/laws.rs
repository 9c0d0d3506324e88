//! Properties of the encoding, stated and proved over the same spec
//! functions the encoder's contracts use.

use vstd::prelude::*;

use crate::encoder::bucket_total;
use crate::encoder::cumulative_buckets;
use crate::encoder::emitted_buckets;
use crate::encoder::has_infinite_bound;
use crate::text::escape_char;
use crate::text::escape_text;
use crate::value::BucketBound;

verus! {

// ---------------------------------------------------------------------------
// Escaping round-trips
// ---------------------------------------------------------------------------

/// What an escape introduced by `escape_char` stands for: `n` becomes a
/// newline, every other escaped character stands for itself.
pub open spec fn unescape_code(c: char) -> char {
    if c == 'n' {
        '\n'
    } else {
        c
    }
}

/// The standard exposition-format un-escaping of a serialized label value:
/// a backslash and the character after it collapse to what the escape stands
/// for; every other character passes through.
pub open spec fn unescape_text(s: Seq<char>) -> Seq<char>
    decreases s.len(),
{
    if s.len() == 0 {
        Seq::empty()
    } else if s[0] == '\\' && s.len() >= 2 {
        seq![unescape_code(s[1])] + unescape_text(s.skip(2))
    } else {
        seq![s[0]] + unescape_text(s.skip(1))
    }
}

/// Label escaping round-trips: un-escaping the serialized form of any label
/// value recovers the original value.
pub proof fn lemma_escape_round_trip(s: Seq<char>)
    ensures
        unescape_text(escape_text(s)) == s,
    decreases s.len(),
{
    if s.len() == 0 {
        assert(escape_text(s) == Seq::<char>::empty());
        assert(unescape_text(escape_text(s)) =~= s);
    } else {
        let c = s[0];
        let e = escape_char(c);
        let rest = escape_text(s.skip(1));
        assert(escape_text(s) == e + rest);
        lemma_escape_round_trip(s.skip(1));
        if c == '\\' || c == '\n' || c == '"' {
            assert(e.len() == 2 && e[0] == '\\');
            assert((e + rest)[0] == '\\' && (e + rest).len() >= 2);
            assert((e + rest)[1] == e[1]);
            assert((e + rest).skip(2) =~= rest);
            assert(unescape_code(e[1]) == c);
            assert(unescape_text(e + rest) =~= seq![c] + unescape_text(rest));
            assert(seq![c] + s.skip(1) =~= s);
        } else {
            assert(e =~= seq![c]);
            assert((e + rest)[0] == c && c != '\\');
            assert((e + rest).skip(1) =~= rest);
            assert(unescape_text(e + rest) =~= seq![c] + unescape_text(rest));
            assert(seq![c] + s.skip(1) =~= s);
        }
    }
}

// ---------------------------------------------------------------------------
// Histogram bucket accumulation
// ---------------------------------------------------------------------------

/// The cumulative bucket sequence keeps the caller's bounds in order and
/// pairs each with the total of the per-bucket counts up to and including it.
pub proof fn lemma_cumulative_buckets_structure(bs: Seq<(BucketBound, u64)>)
    ensures
        cumulative_buckets(bs).len() == bs.len(),
        forall|i: int|
            0 <= i < bs.len() ==> (#[trigger] cumulative_buckets(bs)[i]).0 == bs[i].0,
        forall|i: int|
            0 <= i < bs.len() ==> (#[trigger] cumulative_buckets(bs)[i]).1 == bucket_total(
                bs.take(i + 1),
            ),
    decreases bs.len(),
{
    if bs.len() > 0 {
        lemma_cumulative_buckets_structure(bs.drop_last());
        assert(bs.take(bs.len() as int) =~= bs);
        assert forall|i: int| 0 <= i < bs.len() - 1 implies #[trigger] bs.drop_last().take(i + 1)
            =~= bs.take(i + 1) by {}
    }
}

/// The final emitted bucket's cumulative count always equals the sum of all
/// input per-bucket counts — which is also the value emitted on the `_count`
/// line, since `histogram_text` derives both from `bucket_total`.
pub proof fn lemma_histogram_count_consistency(bs: Seq<(BucketBound, u64)>)
    ensures
        emitted_buckets(bs).len() > 0,
        emitted_buckets(bs).last().1 == bucket_total(bs),
{
    if has_infinite_bound(bs) {
        assert(bs.len() > 0);
    }
}

/// A histogram without an explicit infinite bucket still ends in exactly one
/// terminal `+Inf` bucket, whose cumulative count equals the last explicit
/// bucket's cumulative count (the total of all per-bucket counts).
pub proof fn lemma_synthesized_infinite_bucket(bs: Seq<(BucketBound, u64)>)
    requires
        !has_infinite_bound(bs),
    ensures
        emitted_buckets(bs).len() == bs.len() + 1,
        emitted_buckets(bs).last().0 is PosInfinity,
        forall|i: int|
            0 <= i < emitted_buckets(bs).len() - 1 ==> !((#[trigger] emitted_buckets(bs)[i]).0
                is PosInfinity),
        emitted_buckets(bs).last().1 == bucket_total(bs),
        bs.len() > 0 ==> cumulative_buckets(bs).last().1 == bucket_total(bs),
{
    lemma_cumulative_buckets_structure(bs);
    assert forall|i: int| 0 <= i < emitted_buckets(bs).len() - 1 implies !((
    #[trigger] emitted_buckets(bs)[i]).0 is PosInfinity) by {
        assert(emitted_buckets(bs)[i].0 == bs[i].0);
        assert(!(bs[i].0 is PosInfinity));
    }
    if bs.len() > 0 {
        assert(bs.take(bs.len() as int) =~= bs);
        assert(cumulative_buckets(bs).last().1 == bucket_total(bs));
    }
}

} // verus!
