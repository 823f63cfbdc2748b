//! Layout strategy B: three advice columns, one logical row per region.
//!
//! Region `i` holds the window `(t_i, t_{i+1}, t_{i+2})` of the sequence in
//! columns 0, 1 and 2 of its single row, with the selector enabled on that
//! row. The first region takes its first two cells from instance slots 0 and
//! 1; every later region receives its first two cells by copy constraints
//! from earlier regions' cells and computes the third. The last region's
//! third cell is the output.

use vstd::prelude::*;
use crate::scalar::Scalar;
use crate::fib::{fib_val, fib_scalars, lemma_fib_recurrence};
use crate::semantics::values_of;

verus! {

/// A copy constraint between two cells, each named by its region index and
/// column index.
pub struct CopyOp {
    pub src_region: usize,
    pub src_col: usize,
    pub dst_region: usize,
    pub dst_col: usize,
}

/// A fully assigned multi-region table.
pub struct MultiRegionPlan {
    /// Number of sequence terms; the table has `nterms - 2` regions.
    pub nterms: usize,
    /// The terms of the sequence; region `i` holds terms `i`, `i+1`, `i+2`.
    pub terms: Vec<Scalar>,
    /// The copy constraints wiring each region to its predecessors.
    pub copies: Vec<CopyOp>,
    /// Instance slot the output cell is bound to.
    pub output_slot: usize,
}

/// The term index held by column `col` of region `region`.
pub open spec fn cell_term(region: int, col: int) -> int {
    region + col
}

/// The field value held by column `col` of region `region`.
pub open spec fn cell_val(p: MultiRegionPlan, region: int, col: int) -> int {
    p.terms@[cell_term(region, col)]@
}

/// The two copy constraints feeding region `i` (for `i >= 1`): column 0
/// receives the cell that the assignment loop last held as its `b` value —
/// region 0's column 1 for the first copy, region `i - 2`'s column 2 after
/// that — and column 1 receives region `i - 1`'s column 2.
pub open spec fn copy_pair_ok(copies: Seq<CopyOp>, i: int) -> bool {
    let a_op = copies[2 * (i - 1)];
    let b_op = copies[2 * (i - 1) + 1];
    &&& a_op.dst_region == i
    &&& a_op.dst_col == 0
    &&& if i == 1 {
            a_op.src_region == 0 && a_op.src_col == 1
        } else {
            a_op.src_region == i - 2 && a_op.src_col == 2
        }
    &&& b_op.dst_region == i
    &&& b_op.dst_col == 1
    &&& b_op.src_region == i - 1
    &&& b_op.src_col == 2
}

/// Well-formedness of a plan built from seed values `s0`, `s1`.
pub open spec fn multi_plan_ok(p: MultiRegionPlan, s0: int, s1: int) -> bool {
    &&& p.nterms >= 3
    &&& p.terms@.len() == p.nterms
    &&& (forall|k: int| 0 <= k < p.nterms ==> #[trigger] p.terms@[k]@ == fib_val(s0, s1, k as nat))
    &&& p.copies@.len() == 2 * (p.nterms - 3)
    &&& (forall|i: int| 1 <= i < p.nterms - 2 ==> #[trigger] copy_pair_ok(p.copies@, i))
    &&& p.output_slot == 2
}

/// Builds the multi-region table for the given seeds and term count.
pub fn plan_multi_region(seed0: &Scalar, seed1: &Scalar, nterms: usize) -> (p: MultiRegionPlan)
    requires
        nterms >= 3,
    ensures
        multi_plan_ok(p, seed0@, seed1@),
        p.nterms == nterms,
{
    let terms = fib_scalars(seed0, seed1, nterms);
    let mut copies: Vec<CopyOp> = Vec::new();
    let mut i: usize = 1;
    while i < nterms - 2
        invariant
            3 <= nterms,
            1 <= i <= nterms - 2,
            copies@.len() == 2 * (i - 1),
            forall|j: int| 1 <= j < i ==> #[trigger] copy_pair_ok(copies@, j),
        decreases nterms - i,
    {
        let ghost copies0 = copies@;
        if i == 1 {
            copies.push(CopyOp { src_region: 0, src_col: 1, dst_region: i, dst_col: 0 });
        } else {
            copies.push(CopyOp { src_region: i - 2, src_col: 2, dst_region: i, dst_col: 0 });
        }
        copies.push(CopyOp { src_region: i - 1, src_col: 2, dst_region: i, dst_col: 1 });
        proof {
            assert forall|j: int| 1 <= j < i + 1 implies #[trigger] copy_pair_ok(copies@, j) by {
                if j < i {
                    assert(copies@[2 * (j - 1)] == copies0[2 * (j - 1)]);
                    assert(copies@[2 * (j - 1) + 1] == copies0[2 * (j - 1) + 1]);
                    assert(copy_pair_ok(copies0, j));
                } else {
                    assert(copies@[2 * (j - 1)] == copies@[copies0.len() as int]);
                    assert(copies@[2 * (j - 1) + 1] == copies@[copies0.len() as int + 1]);
                }
            }
        }
        i = i + 1;
    }
    MultiRegionPlan { nterms, terms, copies, output_slot: 2 }
}

/// Both copy constraints of region `i` link cells holding the same value.
pub open spec fn copy_pair_values_equal(p: MultiRegionPlan, i: int) -> bool {
    let a_op = p.copies@[2 * (i - 1)];
    let b_op = p.copies@[2 * (i - 1) + 1];
    &&& cell_val(p, a_op.src_region as int, a_op.src_col as int)
        == cell_val(p, a_op.dst_region as int, a_op.dst_col as int)
    &&& cell_val(p, b_op.src_region as int, b_op.src_col as int)
        == cell_val(p, b_op.dst_region as int, b_op.dst_col as int)
}

/// Every copy constraint links two cells that hold the same term of the
/// sequence, so each asserts an equality that the assigned values already
/// meet.
pub proof fn lemma_copies_consistent(p: MultiRegionPlan, s0: int, s1: int)
    requires
        multi_plan_ok(p, s0, s1),
    ensures
        forall|i: int| 1 <= i < p.nterms - 2 ==> #[trigger] copy_pair_values_equal(p, i),
{
    assert forall|i: int| 1 <= i < p.nterms - 2 implies #[trigger] copy_pair_values_equal(p, i) by {
        assert(copy_pair_ok(p.copies@, i));
    }
}

/// Satisfaction of the multi-region table by a candidate term sequence `t`
/// and an instance column `inst`: the first region's first two cells copy
/// instance slots 0 and 1, the add gate vanishes on every region's row, and the
/// last region's third cell is bound to the output instance slot.
pub open spec fn multi_satisfied(p: MultiRegionPlan, t: Seq<int>, inst: Seq<int>) -> bool {
    &&& t.len() == p.nterms
    &&& inst.len() >= 3
    &&& t[0] == inst[0]
    &&& t[1] == inst[1]
    &&& (forall|i: int| 0 <= i < p.nterms - 2 ==> #[trigger] t[i + 2]
        == crate::scalar::fp_add_val(t[i], t[i + 1]))
    &&& t[p.nterms - 1] == inst[p.output_slot as int]
}

/// Soundness: any term sequence that satisfies a well-formed multi-region
/// table is exactly the Fibonacci sequence seeded by instance slots 0 and 1,
/// and the output instance slot must hold its last term.
pub proof fn lemma_multi_soundness(p: MultiRegionPlan, t: Seq<int>, inst: Seq<int>, s0: int, s1: int)
    requires
        multi_plan_ok(p, s0, s1),
        multi_satisfied(p, t, inst),
    ensures
        forall|k: int| 0 <= k < p.nterms ==> #[trigger] t[k] == fib_val(inst[0], inst[1], k as nat),
        inst[p.output_slot as int] == fib_val(inst[0], inst[1], (p.nterms - 1) as nat),
{
    assert forall|r: int| 0 <= r && r + 2 < t.len() implies #[trigger] crate::semantics::gate_holds_at(t, r) by {
        assert(t[r + 2] == crate::scalar::fp_add_val(t[r], t[r + 1]));
    }
    crate::semantics::lemma_recurrence_forces_fib(t, inst[0], inst[1]);
}

/// Gate soundness against tampering: a term sequence that differs from the
/// Fibonacci sequence of the bound seeds at any single position cannot
/// satisfy the table.
pub proof fn lemma_multi_tamper_rejected(
    p: MultiRegionPlan,
    t: Seq<int>,
    inst: Seq<int>,
    s0: int,
    s1: int,
    k: int,
)
    requires
        multi_plan_ok(p, s0, s1),
        inst.len() >= 3,
        0 <= k < p.nterms,
        t.len() == p.nterms,
        t[k] != fib_val(inst[0], inst[1], k as nat),
    ensures
        !multi_satisfied(p, t, inst),
{
    if multi_satisfied(p, t, inst) {
        lemma_multi_soundness(p, t, inst, s0, s1);
    }
}

/// Completeness: the plan's own terms satisfy the table against any instance
/// column that holds the seeds in slots 0 and 1 and the last term in the
/// output slot.
pub proof fn lemma_multi_completeness(p: MultiRegionPlan, inst: Seq<int>, s0: int, s1: int)
    requires
        multi_plan_ok(p, s0, s1),
        inst.len() >= 3,
        inst[0] == s0,
        inst[1] == s1,
        inst[p.output_slot as int] == fib_val(s0, s1, (p.nterms - 1) as nat),
    ensures
        multi_satisfied(p, values_of(p.terms@), inst),
{
    let t = values_of(p.terms@);
    assert forall|i: int| 0 <= i < p.nterms - 2 implies #[trigger] t[i + 2]
        == crate::scalar::fp_add_val(t[i], t[i + 1]) by {
        lemma_fib_recurrence(s0, s1, (i + 2) as nat);
    }
}

} // verus!
