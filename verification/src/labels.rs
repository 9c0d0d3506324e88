//! Serialization of label sets.
//!
//! A label set is an ordered sequence of (key, value) pairs. Keys obey the
//! metric-name rules; values are arbitrary and escaped on output. The
//! serialized form is the brace interior `k1="v1",k2="v2",...` — the caller
//! decides whether braces surround it.

use vstd::prelude::*;

use crate::names::is_valid_name;
use crate::text::escape_text;
use crate::text::push_escaped;
use crate::text::push_str_text;

verus! {

/// The label pairs of a slice, as character sequences.
pub open spec fn labels_view(ls: Seq<(&str, &str)>) -> Seq<(Seq<char>, Seq<char>)> {
    Seq::new(ls.len(), |i: int| (ls[i].0@, ls[i].1@))
}

/// Every label key in the slice is a valid name.
pub open spec fn all_keys_valid(ls: Seq<(&str, &str)>) -> bool {
    forall|i: int| 0 <= i < ls.len() ==> is_valid_name((#[trigger] ls[i]).0@)
}

/// The text of one `key="value"` pair, with the value escaped.
pub open spec fn label_pair_text(key: Seq<char>, value: Seq<char>) -> Seq<char> {
    key + "=\""@ + escape_text(value) + "\""@
}

/// The serialized interior of a label set: pairs in the order given, joined
/// by commas, no enclosing braces.
pub open spec fn labels_text(ls: Seq<(Seq<char>, Seq<char>)>) -> Seq<char>
    decreases ls.len(),
{
    if ls.len() == 0 {
        Seq::empty()
    } else if ls.len() == 1 {
        label_pair_text(ls[0].0, ls[0].1)
    } else {
        labels_text(ls.drop_last()) + ","@ + label_pair_text(ls.last().0, ls.last().1)
    }
}

proof fn lemma_labels_text_push(ls: Seq<(Seq<char>, Seq<char>)>, p: (Seq<char>, Seq<char>))
    ensures
        ls.len() == 0 ==> labels_text(ls.push(p)) == label_pair_text(p.0, p.1),
        ls.len() > 0 ==> labels_text(ls.push(p)) == labels_text(ls) + ","@ + label_pair_text(
            p.0,
            p.1,
        ),
{
    assert(ls.push(p).drop_last() =~= ls);
    assert(ls.push(p).last() == p);
    if ls.len() == 0 {
        assert(ls.push(p)[0] == p);
    }
}

/// Appends one `key="value"` pair to `buf`.
pub(crate) fn push_label_pair(buf: &mut Vec<char>, key: &str, value: &str)
    ensures
        final(buf)@ == old(buf)@ + label_pair_text(key@, value@),
{
    push_str_text(buf, key);
    push_str_text(buf, "=\"");
    push_escaped(buf, value);
    push_str_text(buf, "\"");
    assert(buf@ =~= old(buf)@ + label_pair_text(key@, value@));
}

/// Appends the serialized interior of `labels` to `buf`.
pub(crate) fn push_labels(buf: &mut Vec<char>, labels: &[(&str, &str)])
    ensures
        final(buf)@ == old(buf)@ + labels_text(labels_view(labels@)),
{
    let ghost buf0 = buf@;
    let ghost lv = labels_view(labels@);
    let mut i: usize = 0;
    while i < labels.len()
        invariant
            i <= labels@.len(),
            lv == labels_view(labels@),
            buf@ == buf0 + labels_text(lv.take(i as int)),
        decreases labels@.len() - i,
    {
        if i > 0 {
            push_str_text(buf, ",");
        }
        let (k, v) = labels[i];
        push_label_pair(buf, k, v);
        proof {
            assert(lv.take(i + 1) =~= lv.take(i as int).push((k@, v@)));
            lemma_labels_text_push(lv.take(i as int), (k@, v@));
            assert(buf@ =~= buf0 + labels_text(lv.take(i + 1)));
        }
        i += 1;
    }
    assert(lv.take(labels@.len() as int) =~= lv);
}

/// Appends the serialized interior of `labels` with one more `le="..."` pair
/// at the end, as histogram bucket lines carry it.
pub(crate) fn push_labels_with_le(buf: &mut Vec<char>, labels: &[(&str, &str)], le_value: &str)
    ensures
        final(buf)@ == old(buf)@ + labels_text(labels_view(labels@).push(("le"@, le_value@))),
{
    push_labels(buf, labels);
    if labels.len() > 0 {
        push_str_text(buf, ",");
    }
    push_label_pair(buf, "le", le_value);
    proof {
        lemma_labels_text_push(labels_view(labels@), ("le"@, le_value@));
        assert(buf@ =~= old(buf)@ + labels_text(labels_view(labels@).push(("le"@, le_value@))));
    }
}

} // verus!
