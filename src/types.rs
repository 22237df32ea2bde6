//! Sums over arrays, and constant text.
use vstd::prelude::*;

verus! {

/// The sum of the numbers in `s`.
pub open spec fn seq_sum(s: Seq<i32>) -> int
    decreases s.len(),
{
    if s.len() == 0 {
        0
    } else {
        seq_sum(s.drop_last()) + s.last()
    }
}

/// The sum of the elements of `arr`; every running sum must fit in an `i32`.
pub fn array_sum<const N: usize>(arr: &[i32; N]) -> (r: i32)
    requires
        forall|k: int| 0 <= k <= N ==> i32::MIN <= #[trigger] seq_sum(arr@.subrange(0, k)) <= i32::MAX,
    ensures
        r == seq_sum(arr@),
{
    let mut sum: i32 = 0;
    let mut i: usize = 0;
    while i < N
        invariant
            arr@.len() == N,
            i <= N,
            sum == seq_sum(arr@.subrange(0, i as int)),
            forall|k: int| 0 <= k <= N ==> i32::MIN <= #[trigger] seq_sum(arr@.subrange(0, k)) <= i32::MAX,
        decreases N - i,
    {
        assert(arr@.subrange(0, i + 1).drop_last() == arr@.subrange(0, i as int));
        assert(seq_sum(arr@.subrange(0, i + 1)) == sum + arr@[i as int]);
        sum = sum + arr[i];
        i = i + 1;
    }
    assert(arr@.subrange(0, N as int) == arr@);
    sum
}

/// A text fixed at compile time.
pub fn test_const_fn() -> (r: &'static str)
    ensures
        r@ == "编译时就可以计算的fn才可以是const"@,
{
    "编译时就可以计算的fn才可以是const"
}

} // verus!
