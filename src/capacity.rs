use vstd::prelude::*;

verus! {

/// Bytes taken by the length prefix of a serialized list.
pub const LIST_PREFIX: usize = 4;

/// The capacity after one growth step, or `None` when `current + window`
/// does not fit in a `u16`.
pub fn grow(current: u16, window: u16) -> (r: Option<u16>)
    ensures
        current + window <= u16::MAX ==> r == Some((current + window) as u16),
        current + window > u16::MAX ==> r is None,
{
    current.checked_add(window)
}

/// Size of a serialized record made of `fixed` bytes of header fields and a
/// length-prefixed list of `count` items of `item` bytes each.
pub fn list_record_size(fixed: usize, count: usize, item: usize) -> (r: usize)
    requires
        fixed + LIST_PREFIX + count * item <= usize::MAX,
    ensures
        r == fixed + LIST_PREFIX + count * item,
{
    proof {
        assert(count * item <= usize::MAX) by (nonlinear_arith)
            requires
                fixed + LIST_PREFIX + count * item <= usize::MAX,
        ;
    }
    fixed + LIST_PREFIX + count * item
}

} // verus!
