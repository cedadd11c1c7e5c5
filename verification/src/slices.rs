use vstd::prelude::*;

verus! {

/// The first `n` elements of `s`, borrowed mutably: `&mut s[..n]`, which is
/// `core::ops::IndexMut::index_mut` of `[T]` with a `RangeTo<usize>`.
///
/// Trusted, not proved. The contract claims of that call:
/// - it does not panic while `n` is within the slice;
/// - the result holds the first `n` elements of `s`, in order;
/// - a slice reference cannot change how many elements its slice has, so the
///   result still has `n` elements when its borrow ends;
/// - once that borrow has ended, `s` holds what the result then held,
///   followed by its own elements from `n` on, which the call never touches.
#[verifier::external_body]
pub(crate) fn prefix_mut<'a, T>(s: &'a mut [T], n: usize) -> (head: &'a mut [T])
    requires
        n <= old(s)@.len(),
    ensures
        head@ == old(s)@.take(n as int),
        final(head)@.len() == n,
        final(s)@ == final(head)@ + old(s)@.skip(n as int),
    no_unwind
{
    &mut s[..n]
}

} // verus!
