//! Sample values and histogram bucket bounds.
//!
//! Prometheus sample values are IEEE-754 doubles, which the verifier does not
//! reason about. The encoder therefore takes a value already split into the
//! four shapes the exposition format distinguishes: the three special tokens,
//! and a finite value carried as its decimal text. The caller that owns the
//! double produces the `Finite` text with its language's shortest round-trip
//! formatter; the encoder inserts it verbatim.

use vstd::prelude::*;

verus! {

/// One sample value, as the exposition format renders it.
pub enum SampleValue {
    /// Rendered as the token `NaN`.
    NotANumber,
    /// Rendered as the token `+Inf`.
    PosInfinity,
    /// Rendered as the token `-Inf`.
    NegInfinity,
    /// A finite value, rendered as the carried decimal text.
    Finite(String),
}

/// The exact text a sample value is rendered as.
pub open spec fn value_text(v: SampleValue) -> Seq<char> {
    match v {
        SampleValue::NotANumber => "NaN"@,
        SampleValue::PosInfinity => "+Inf"@,
        SampleValue::NegInfinity => "-Inf"@,
        SampleValue::Finite(t) => t@,
    }
}

/// Renders a sample value: `NaN`, `+Inf`, `-Inf`, or the finite text verbatim.
pub fn format_value(v: &SampleValue) -> (r: String)
    ensures
        r@ == value_text(*v),
{
    match v {
        SampleValue::NotANumber => String::from_str("NaN"),
        SampleValue::PosInfinity => String::from_str("+Inf"),
        SampleValue::NegInfinity => String::from_str("-Inf"),
        SampleValue::Finite(t) => t.clone(),
    }
}

/// The upper bound of one histogram bucket: either a finite bound carried as
/// its decimal text, or positive infinity, rendered as `+Inf`.
pub enum BucketBound {
    Finite(String),
    PosInfinity,
}

/// The text a bucket bound contributes to its `le` label value.
pub open spec fn bound_text(b: BucketBound) -> Seq<char> {
    match b {
        BucketBound::Finite(t) => t@,
        BucketBound::PosInfinity => "+Inf"@,
    }
}

} // verus!
