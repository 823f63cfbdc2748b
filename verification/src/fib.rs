//! The Fibonacci witness sequence over the backend field.

use vstd::prelude::*;
use crate::scalar::{Scalar, fp_add_val};

verus! {

/// The term at position `k` of the Fibonacci sequence seeded with field
/// values `s0`, `s1`, under the backend field's addition.
pub open spec fn fib_val(s0: int, s1: int, k: nat) -> int
    decreases k,
{
    if k == 0 {
        s0
    } else if k == 1 {
        s1
    } else {
        fp_add_val(fib_val(s0, s1, (k - 2) as nat), fib_val(s0, s1, (k - 1) as nat))
    }
}

/// The defining recurrence, stated pointwise: positions 0 and 1 hold the
/// seeds, and every later position holds the field sum of the two before it.
pub proof fn lemma_fib_recurrence(s0: int, s1: int, k: nat)
    ensures
        fib_val(s0, s1, 0) == s0,
        fib_val(s0, s1, 1) == s1,
        k >= 2 ==> fib_val(s0, s1, k) == fp_add_val(
            fib_val(s0, s1, (k - 2) as nat),
            fib_val(s0, s1, (k - 1) as nat),
        ),
{
}

/// Computes the first `n` terms of the sequence as field elements.
pub fn fib_scalars(s0: &Scalar, s1: &Scalar, n: usize) -> (r: Vec<Scalar>)
    requires
        n >= 2,
    ensures
        r@.len() == n,
        forall|k: int| 0 <= k < n ==> #[trigger] r@[k]@ == fib_val(s0@, s1@, k as nat),
{
    let mut v: Vec<Scalar> = Vec::new();
    v.push(s0.dup());
    v.push(s1.dup());
    let mut i: usize = 2;
    while i < n
        invariant
            2 <= i <= n,
            v@.len() == i,
            forall|k: int| 0 <= k < i ==> #[trigger] v@[k]@ == fib_val(s0@, s1@, k as nat),
        decreases n - i,
    {
        let c = v[i - 2].plus(&v[i - 1]);
        v.push(c);
        i = i + 1;
    }
    v
}

} // verus!
