//! The meaning of a satisfied table, and the uniqueness of the witness.
//!
//! A witness is modelled as the sequence of field values held by the cells of
//! one logical column of the table. The add gate `selector * (a + b - c)` is
//! satisfied at an anchor row when the window of three values starting there
//! obeys the field recurrence.

use vstd::prelude::*;
use crate::scalar::{Scalar, fp_add_val};
use crate::fib::fib_val;

verus! {

/// The field values of a sequence of assigned cells.
pub open spec fn values_of(v: Seq<Scalar>) -> Seq<int> {
    Seq::new(v.len(), |i: int| v[i]@)
}

/// The add gate vanishes at anchor row `r` of witness `w`.
pub open spec fn gate_holds_at(w: Seq<int>, r: int) -> bool {
    w[r + 2] == fp_add_val(w[r], w[r + 1])
}

/// The add gate vanishes on every row whose selector is active and whose window
/// lies inside the table.
pub open spec fn gates_satisfied(w: Seq<int>, sel: Seq<bool>) -> bool {
    forall|r: int| 0 <= r && r + 2 < w.len() && sel[r] ==> #[trigger] gate_holds_at(w, r)
}

proof fn lemma_forces_fib_upto(w: Seq<int>, s0: int, s1: int, k: int)
    requires
        w.len() >= 2,
        w[0] == s0,
        w[1] == s1,
        forall|r: int| 0 <= r && r + 2 < w.len() ==> #[trigger] gate_holds_at(w, r),
        0 <= k < w.len(),
    ensures
        w[k] == fib_val(s0, s1, k as nat),
    decreases k,
{
    if k >= 2 {
        lemma_forces_fib_upto(w, s0, s1, k - 2);
        lemma_forces_fib_upto(w, s0, s1, k - 1);
        assert(gate_holds_at(w, k - 2));
    }
}

/// The witness is unique: a table that seeds `s0`, `s1` and satisfies the
/// recurrence on every three-row window is exactly the Fibonacci sequence.
pub proof fn lemma_recurrence_forces_fib(w: Seq<int>, s0: int, s1: int)
    requires
        w.len() >= 2,
        w[0] == s0,
        w[1] == s1,
        forall|r: int| 0 <= r && r + 2 < w.len() ==> #[trigger] gate_holds_at(w, r),
    ensures
        forall|k: int| 0 <= k < w.len() ==> #[trigger] w[k] == fib_val(s0, s1, k as nat),
{
    assert forall|k: int| 0 <= k < w.len() implies #[trigger] w[k] == fib_val(s0, s1, k as nat) by {
        lemma_forces_fib_upto(w, s0, s1, k);
    }
}

/// The Fibonacci sequence itself satisfies the add gate on every window.
pub proof fn lemma_fib_satisfies_gates(w: Seq<int>, s0: int, s1: int)
    requires
        forall|k: int| 0 <= k < w.len() ==> #[trigger] w[k] == fib_val(s0, s1, k as nat),
    ensures
        forall|r: int| 0 <= r && r + 2 < w.len() ==> #[trigger] gate_holds_at(w, r),
{
    assert forall|r: int| 0 <= r && r + 2 < w.len() implies #[trigger] gate_holds_at(w, r) by {
        assert(w[r] == fib_val(s0, s1, r as nat));
        assert(w[r + 1] == fib_val(s0, s1, (r + 1) as nat));
        assert(w[r + 2] == fib_val(s0, s1, (r + 2) as nat));
    }
}

} // verus!
