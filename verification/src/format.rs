//! What other crates compute for the tables: sizes as text and the order of the
//! metrics. Nothing in this file is proved: each contract states what the crate's
//! documentation or source says of the call.

use itertools::Itertools;
use vstd::prelude::*;

verus! {

/// What `humansize` writes for a count of bytes under its decimal options: the count
/// scaled by powers of 1000, with at most two decimal places, a space and the unit.
pub uninterp spec fn human_size(bytes: u64) -> Seq<char>;

/// `humansize::format_size` with the options `DECIMAL`.
#[verifier::external_body]
pub(crate) fn format_bytes(bytes: u64) -> (text: String)
    ensures
        text@ == human_size(bytes),
{
    humansize::format_size(bytes, humansize::DECIMAL)
}

/// The order of text in the standard library: character by character, by code
/// point; a text comes before every longer text that begins with it.
pub open spec fn text_le(a: Seq<char>, b: Seq<char>) -> bool
    decreases a.len(),
{
    if a.len() == 0 {
        true
    } else if b.len() == 0 {
        false
    } else if a[0] != b[0] {
        (a[0] as u32) < (b[0] as u32)
    } else {
        text_le(a.drop_first(), b.drop_first())
    }
}

/// The order of metrics: by name, and by count where the names are equal.
pub open spec fn metric_le(a: (Seq<char>, u64), b: (Seq<char>, u64)) -> bool {
    if a.0 == b.0 {
        a.1 <= b.1
    } else {
        text_le(a.0, b.0)
    }
}

/// `sorted` holds the same metrics as `metrics`, in ascending order.
pub open spec fn is_sorted_permutation(
    sorted: Seq<(Seq<char>, u64)>,
    metrics: Seq<(Seq<char>, u64)>,
) -> bool {
    &&& sorted.to_multiset() == metrics.to_multiset()
    &&& forall|i: int, j: int|
        0 <= i <= j < sorted.len() ==> metric_le(#[trigger] sorted[i], #[trigger] sorted[j])
}

/// `Itertools::sorted` over copies of the metrics: the same metrics in ascending
/// order of name and count.
#[verifier::external_body]
pub(crate) fn sorted_metrics(metrics: &Vec<(String, u64)>) -> (sorted: Vec<(String, u64)>)
    ensures
        is_sorted_permutation(sorted.deep_view(), metrics.deep_view()),
{
    metrics.iter().cloned().sorted().collect()
}

} // verus!
