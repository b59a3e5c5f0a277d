use vstd::prelude::*;

use crate::distribution::Distribution;
use vstd::string::StringExecFns;

use crate::external::{byte_label, format_byte_label};

verus! {

/// Sizes of this many bytes or fewer are left out of the summary.
pub const SMALL_FILE_LIMIT: u64 = 4096;

/// The sizes that are counted: those over the small-file limit.
pub open spec fn counted_sizes(sizes: Seq<u64>) -> Seq<u64> {
    sizes.filter(|size: u64| size > SMALL_FILE_LIMIT)
}

/// Keeps the sizes over the small-file limit, in their order.
pub fn select_sizes(sizes: &Vec<u64>) -> (r: Vec<u64>)
    ensures
        r@ == counted_sizes(sizes@),
{
    let mut r: Vec<u64> = Vec::new();
    let mut i: usize = 0;
    while i < sizes.len()
        invariant
            i <= sizes@.len(),
            r@ == counted_sizes(sizes@.subrange(0, i as int)),
        decreases sizes@.len() - i,
    {
        proof {
            let next = sizes@.subrange(0, i + 1);
            assert(next.drop_last() =~= sizes@.subrange(0, i as int));
            reveal(Seq::filter);
        }
        if sizes[i] > SMALL_FILE_LIMIT {
            r.push(sizes[i]);
        }
        i = i + 1;
    }
    proof {
        assert(sizes@.subrange(0, i as int) =~= sizes@);
    }
    r
}

/// A value given as twice itself, rounded half up to a whole number.
pub fn round_half(twice_value: u128) -> (r: u64)
    requires
        twice_value <= 2 * (u64::MAX as int),
    ensures
        r == (twice_value + 1) / 2,
{
    ((twice_value + 1) / 2) as u64
}

/// Caption of each line of the summary, padded to one width.
pub open spec fn caption(i: int) -> Seq<char> {
    if i == 0 {
        "Smallest:       "@
    } else if i == 1 {
        "Lower Quartile: "@
    } else if i == 2 {
        "Median:         "@
    } else if i == 3 {
        "Upper Quartile: "@
    } else {
        "Largest:        "@
    }
}

/// The byte count shown on line `i` of the summary of `d`: the extremes
/// as they are, the other statistics rounded half up.
pub open spec fn shown_bytes(d: Distribution, i: int) -> u64 {
    if i == 0 {
        d.min
    } else if i == 1 {
        ((d.twice_lower_quartile + 1) / 2) as u64
    } else if i == 2 {
        ((d.twice_median + 1) / 2) as u64
    } else if i == 3 {
        ((d.twice_upper_quartile + 1) / 2) as u64
    } else {
        d.max
    }
}

/// One captioned line of the summary.
fn captioned(caption: &str, label: &str) -> (r: String)
    ensures
        r@ == caption@ + label@,
{
    let mut s = String::new();
    s.append(caption);
    s.append(label);
    proof {
        assert(s@ =~= caption@ + label@);
    }
    s
}

/// The five summary lines, from the labels of the smallest size, the
/// lower quartile, the median, the upper quartile and the largest size.
pub fn summary_lines(labels: &Vec<String>) -> (r: Vec<String>)
    requires
        labels@.len() == 5,
    ensures
        r@.len() == 5,
        forall|i: int| 0 <= i < 5 ==> #[trigger] r@[i]@ == caption(i) + labels@[i]@,
{
    let mut r: Vec<String> = Vec::new();
    r.push(captioned("Smallest:       ", labels[0].as_str()));
    r.push(captioned("Lower Quartile: ", labels[1].as_str()));
    r.push(captioned("Median:         ", labels[2].as_str()));
    r.push(captioned("Upper Quartile: ", labels[3].as_str()));
    r.push(captioned("Largest:        ", labels[4].as_str()));
    r
}

/// The five summary lines of `d`, each value labelled in bytes.
pub fn distribution_lines(d: &Distribution) -> (r: Vec<String>)
    requires
        d.wf(),
    ensures
        r@.len() == 5,
        forall|i: int|
            0 <= i < 5 ==> #[trigger] r@[i]@ == caption(i) + byte_label(shown_bytes(*d, i)),
{
    let mut labels: Vec<String> = Vec::new();
    labels.push(format_byte_label(d.min));
    labels.push(format_byte_label(round_half(d.twice_lower_quartile)));
    labels.push(format_byte_label(round_half(d.twice_median)));
    labels.push(format_byte_label(round_half(d.twice_upper_quartile)));
    labels.push(format_byte_label(d.max));
    summary_lines(&labels)
}

} // verus!
