//! Layout strategy A: one advice column, one region, relative row offsets.
//!
//! The whole table lives in a single region of `nrows` rows of one advice
//! column; the add gate queries the current row and the two rows below it, so a
//! sliding three-row window encodes the recurrence. The selector is enabled
//! on rows 0 and 1 unconditionally and then on every row whose window stays
//! inside the table; the last two rows are left inactive because the add gate's
//! relative offsets would otherwise query rows past the table's end.
//!
//! This layout reads the same instance slot for both seed rows (both
//! `seed0_slot` and `seed1_slot` are 0 under the default wiring of
//! [`crate::circuit::plan_circuit`]); the slots are kept as explicit fields
//! so that the intended wiring (slots 0 and 1) can be built as well.

use vstd::prelude::*;
use crate::scalar::Scalar;
use crate::fib::{fib_val, fib_scalars, lemma_fib_recurrence};
use crate::semantics::{values_of, gate_holds_at, gates_satisfied, lemma_recurrence_forces_fib};

verus! {

/// A fully assigned single-region table.
pub struct SingleRegionPlan {
    /// Number of assigned rows of the advice column.
    pub nrows: usize,
    /// The witness value of each row.
    pub values: Vec<Scalar>,
    /// Whether the selector is enabled on each row.
    pub selector: Vec<bool>,
    /// Instance slot copied into row 0.
    pub seed0_slot: usize,
    /// Instance slot copied into row 1.
    pub seed1_slot: usize,
    /// Row whose cell is bound to the output instance slot.
    pub output_row: usize,
    /// Instance slot the output cell is bound to.
    pub output_slot: usize,
}

/// Well-formedness of a plan built from seed values `s0`, `s1`.
pub open spec fn single_plan_ok(p: SingleRegionPlan, s0: int, s1: int) -> bool {
    &&& p.nrows >= 2
    &&& p.values@.len() == p.nrows
    &&& (forall|k: int| 0 <= k < p.nrows ==> #[trigger] p.values@[k]@ == fib_val(s0, s1, k as nat))
    &&& p.selector@.len() == p.nrows
    &&& (forall|r: int| 0 <= r < p.nrows ==> (#[trigger] p.selector@[r] <==> (r < 2 || r + 2 < p.nrows)))
    &&& p.output_row == p.nrows - 1
    &&& p.output_slot == 2
}

/// Builds the single-region table for the given seeds.
///
/// Rows 0 and 1 take the seed values (copied from the named instance slots at
/// synthesis time); each later row holds the field sum of the two rows above
/// it; the selector is enabled on rows 0 and 1 and on every interior row
/// whose three-row window fits, and the last cell is the output.
pub fn plan_single_region(
    seed0: &Scalar,
    seed1: &Scalar,
    seed0_slot: usize,
    seed1_slot: usize,
    nrows: usize,
) -> (p: SingleRegionPlan)
    requires
        nrows >= 2,
    ensures
        single_plan_ok(p, seed0@, seed1@),
        p.nrows == nrows,
        p.seed0_slot == seed0_slot,
        p.seed1_slot == seed1_slot,
{
    let values = fib_scalars(seed0, seed1, nrows);
    let mut selector: Vec<bool> = Vec::new();
    let mut r: usize = 0;
    while r < nrows
        invariant
            r <= nrows,
            selector@.len() == r,
            forall|j: int| 0 <= j < r ==> (#[trigger] selector@[j] <==> (j < 2 || j + 2 < nrows)),
        decreases nrows - r,
    {
        selector.push(r < 2 || nrows - r > 2);
        r = r + 1;
    }
    SingleRegionPlan {
        nrows,
        values,
        selector,
        seed0_slot,
        seed1_slot,
        output_row: nrows - 1,
        output_slot: 2,
    }
}

/// Selector-boundary behavior: in a table of at least four rows the selector
/// is active exactly on rows `0 .. nrows - 2` (that is, up to and including
/// the third-from-last row) and inactive on the last two rows, so every
/// active gate's window `r`, `r + 1`, `r + 2` stays inside the table.
pub proof fn lemma_selector_boundary(p: SingleRegionPlan, s0: int, s1: int)
    requires
        single_plan_ok(p, s0, s1),
        p.nrows >= 4,
    ensures
        forall|r: int| 0 <= r < p.nrows ==> (#[trigger] p.selector@[r] <==> r + 2 < p.nrows),
        forall|r: int| 0 <= r < p.nrows && #[trigger] p.selector@[r] ==> r + 2 < p.values@.len(),
{
}

/// Satisfaction of the single-region table by a candidate witness `w` and an
/// instance column `inst`: the two seed cells copy the instance slots the
/// plan names, the add gate vanishes on every selector-active window, and the
/// output cell is bound to the output instance slot.
pub open spec fn single_satisfied(p: SingleRegionPlan, w: Seq<int>, inst: Seq<int>) -> bool {
    &&& w.len() == p.nrows
    &&& inst.len() >= 3
    &&& p.seed0_slot < inst.len()
    &&& p.seed1_slot < inst.len()
    &&& w[0] == inst[p.seed0_slot as int]
    &&& w[1] == inst[p.seed1_slot as int]
    &&& gates_satisfied(w, p.selector@)
    &&& w[p.nrows - 1] == inst[p.output_slot as int]
}

/// Soundness of the add gate and binding: any witness that satisfies a
/// well-formed table of at least four rows is exactly the Fibonacci sequence
/// seeded by the two bound instance slots, and the output instance slot must
/// hold its last term.
pub proof fn lemma_single_soundness(p: SingleRegionPlan, w: Seq<int>, inst: Seq<int>, s0: int, s1: int)
    requires
        single_plan_ok(p, s0, s1),
        p.nrows >= 4,
        single_satisfied(p, w, inst),
    ensures
        forall|k: int| 0 <= k < p.nrows ==>
            #[trigger] w[k] == fib_val(inst[p.seed0_slot as int], inst[p.seed1_slot as int], k as nat),
        inst[p.output_slot as int] == fib_val(
            inst[p.seed0_slot as int],
            inst[p.seed1_slot as int],
            (p.nrows - 1) as nat,
        ),
{
    assert forall|r: int| 0 <= r && r + 2 < w.len() implies #[trigger] gate_holds_at(w, r) by {
        assert(p.selector@[r]);
    }
    lemma_recurrence_forces_fib(w, inst[p.seed0_slot as int], inst[p.seed1_slot as int]);
}

/// Gate soundness against tampering: a witness that differs from the
/// Fibonacci sequence of the bound seeds at any single position cannot
/// satisfy the table, whatever else it holds.
pub proof fn lemma_single_tamper_rejected(
    p: SingleRegionPlan,
    w: Seq<int>,
    inst: Seq<int>,
    s0: int,
    s1: int,
    k: int,
)
    requires
        single_plan_ok(p, s0, s1),
        p.nrows >= 4,
        inst.len() >= 3,
        p.seed0_slot < inst.len(),
        p.seed1_slot < inst.len(),
        0 <= k < p.nrows,
        w.len() == p.nrows,
        w[k] != fib_val(inst[p.seed0_slot as int], inst[p.seed1_slot as int], k as nat),
    ensures
        !single_satisfied(p, w, inst),
{
    if single_satisfied(p, w, inst) {
        lemma_single_soundness(p, w, inst, s0, s1);
    }
}

/// Completeness: the plan's own witness satisfies the table against any
/// instance column that holds the seeds in the named slots and the last term
/// in the output slot.
pub proof fn lemma_single_completeness(p: SingleRegionPlan, inst: Seq<int>, s0: int, s1: int)
    requires
        single_plan_ok(p, s0, s1),
        inst.len() >= 3,
        p.seed0_slot < inst.len(),
        p.seed1_slot < inst.len(),
        inst[p.seed0_slot as int] == s0,
        inst[p.seed1_slot as int] == s1,
        inst[p.output_slot as int] == fib_val(s0, s1, (p.nrows - 1) as nat),
    ensures
        single_satisfied(p, values_of(p.values@), inst),
{
    let w = values_of(p.values@);
    assert forall|r: int| 0 <= r && r + 2 < w.len() && p.selector@[r] implies #[trigger] gate_holds_at(w, r) by {
        lemma_fib_recurrence(s0, s1, (r + 2) as nat);
    }
}

} // verus!
