use vstd::prelude::*;
use vstd::relations::sorted_by;

verus! {

/// The order in which sizes are sorted: ascending.
pub open spec fn size_leq() -> spec_fn(u64, u64) -> bool {
    |a: u64, b: u64| a <= b
}

/// Relies on `slice::sort`: it sorts the slice in ascending order and
/// only rearranges its elements.
#[verifier::external_body]
pub(crate) fn sort_sizes(v: &mut Vec<u64>)
    ensures
        sorted_by(final(v)@, size_leq()),
        final(v)@.to_multiset() == old(v)@.to_multiset(),
{
    v.sort();
}


/// What `byte_unit` prints for a byte count: the count in the unit that
/// `AdjustedByte::from` picks, with at most two decimals.
pub uninterp spec fn byte_label(bytes: u64) -> Seq<char>;

/// Relies on `byte_unit::Byte::from_u64`, `AdjustedByte::from` and its
/// `Display` with `{:#.2}`: the text depends on the byte count alone.
#[verifier::external_body]
pub(crate) fn format_byte_label(bytes: u64) -> (r: String)
    ensures
        r@ == byte_label(bytes),
{
    let adjusted = byte_unit::AdjustedByte::from(byte_unit::Byte::from_u64(bytes));
    format!("{:#.2}", adjusted)
}

/// Relies on `String::push`: appends the character at the end.
#[verifier::external_body]
pub(crate) fn push_char(s: &mut String, c: char)
    ensures
        final(s)@ == old(s)@.push(c),
{
    s.push(c);
}

} // verus!
