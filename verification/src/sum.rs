//! Summing a list of integers, with the exact partial sums pinned down.

use vstd::prelude::*;

verus! {

/// The sum of the first `n` elements of `s`, as a mathematical integer.
pub open spec fn sum_prefix(s: Seq<i32>, n: int) -> int
    decreases n,
{
    if n <= 0 {
        0
    } else {
        sum_prefix(s, n - 1) + s[n - 1]
    }
}

/// The sum of all elements of `s`, as a mathematical integer.
pub open spec fn sum_of(s: Seq<i32>) -> int {
    sum_prefix(s, s.len() as int)
}

/// Sums the slice left to right. Succeeds on every input whose running sums
/// stay within `i32`, and then returns exactly the mathematical sum.
pub fn calculate_sum(numbers: &[i32]) -> (r: Result<i32, String>)
    requires
        forall|i: int|
            0 <= i <= numbers@.len() ==> i32::MIN <= #[trigger] sum_prefix(numbers@, i)
                <= i32::MAX,
    ensures
        r is Ok,
        r->Ok_0 == sum_of(numbers@),
{
    let mut acc: i32 = 0;
    let mut idx: usize = 0;
    while idx < numbers.len()
        invariant
            0 <= idx <= numbers@.len(),
            acc == sum_prefix(numbers@, idx as int),
            forall|i: int|
                0 <= i <= numbers@.len() ==> i32::MIN <= #[trigger] sum_prefix(numbers@, i)
                    <= i32::MAX,
        decreases numbers@.len() - idx,
    {
        assert(sum_prefix(numbers@, idx + 1) == sum_prefix(numbers@, idx as int)
            + numbers@[idx as int]);
        acc = acc + numbers[idx];
        idx = idx + 1;
    }
    Ok(acc)
}

} // verus!
