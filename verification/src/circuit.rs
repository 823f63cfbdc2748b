//! The circuit driver: one entry point for both layout strategies.
//!
//! Configuration, region assignment and public binding are strictly linear:
//! the driver builds the table for the chosen layout from the two seed values
//! and the term count, and names the instance slot the output cell is bound
//! to. Under the single-region layout's default wiring both seed rows copy
//! instance slot 0 — see [`plan_circuit`] — so that layout's sequence is
//! seeded with the slot-0 value twice.

use vstd::prelude::*;
use vstd::arithmetic::power2::{pow2, lemma2_to64, lemma_pow2_unfold, lemma_pow2_strictly_increases};
use crate::scalar::Scalar;
use crate::fib::fib_val;
use crate::layout_single::{SingleRegionPlan, single_plan_ok, plan_single_region};
use crate::layout_multi::{MultiRegionPlan, multi_plan_ok, plan_multi_region};

verus! {

/// The log2 table capacity a layout needs for `rows` rows: the smallest `k`
/// with `2^k >= rows`. The caller adds the backend's reserved rows to `rows`
/// before asking, since how many rows a backend keeps for itself is its own
/// affair.
pub fn capacity_bits(rows: usize) -> (k: u32)
    ensures
        pow2(k as nat) >= rows,
        k > 0 ==> pow2((k - 1) as nat) < rows,
{
    let mut k: u32 = 0;
    let mut cap: u128 = 1;
    proof {
        lemma2_to64();
    }
    while cap < rows as u128
        invariant
            1 <= cap,
            cap == pow2(k as nat),
            cap <= 0x1_0000_0000_0000_0000u128,
            k <= 64,
            k > 0 ==> pow2((k - 1) as nat) < rows,
        decreases 64 - k,
    {
        proof {
            lemma2_to64();
            if k >= 64 {
                if k > 64 {
                    lemma_pow2_strictly_increases(64, k as nat);
                }
                assert(cap >= 0x1_0000_0000_0000_0000u128);
                assert(rows as u128 <= 0xffff_ffff_ffff_ffffu128);
                assert(false);
            }
            if k + 1 < 64 {
                lemma_pow2_strictly_increases((k + 1) as nat, 64);
            }
            lemma_pow2_unfold((k + 1) as nat);
        }
        cap = cap * 2;
        k = k + 1;
    }
    k
}

/// Which table encoding of the recurrence to build.
pub enum LayoutKind {
    /// One advice column, one region, relative row offsets.
    SingleRegion,
    /// Three advice columns, one logical row per region.
    MultiRegion,
}

/// A fully assigned table under one of the two layouts.
pub enum CircuitPlan {
    Single(SingleRegionPlan),
    Multi(MultiRegionPlan),
}

/// The value of the cell bound to the output instance slot.
pub open spec fn plan_output(p: CircuitPlan) -> int {
    match p {
        CircuitPlan::Single(s) => s.values@[s.nrows - 1]@,
        CircuitPlan::Multi(m) => m.terms@[m.nterms - 1]@,
    }
}

/// Builds the circuit's table under the chosen layout.
///
/// `inst0` and `inst1` are the values of instance slots 0 and 1. The
/// multi-region layout seeds its sequence with `(inst0, inst1)`. The
/// single-region layout keeps its duplicate-slot wiring, which copies instance
/// slot 0 into both seed rows, so its sequence is seeded with
/// `(inst0, inst0)`; the intended wiring can be built directly with
/// [`plan_single_region`] and slots 0 and 1.
pub fn plan_circuit(kind: LayoutKind, inst0: &Scalar, inst1: &Scalar, nterms: usize) -> (p: CircuitPlan)
    requires
        nterms >= 3,
    ensures
        match p {
            CircuitPlan::Single(s) => {
                &&& single_plan_ok(s, inst0@, inst0@)
                &&& s.nrows == nterms
                &&& s.seed0_slot == 0
                &&& s.seed1_slot == 0
                &&& plan_output(p) == fib_val(inst0@, inst0@, (nterms - 1) as nat)
            },
            CircuitPlan::Multi(m) => {
                &&& multi_plan_ok(m, inst0@, inst1@)
                &&& m.nterms == nterms
                &&& plan_output(p) == fib_val(inst0@, inst1@, (nterms - 1) as nat)
            },
        },
        matches!(p, CircuitPlan::Single(_)) <==> matches!(kind, LayoutKind::SingleRegion),
{
    match kind {
        LayoutKind::SingleRegion => {
            CircuitPlan::Single(plan_single_region(inst0, inst0, 0, 0, nterms))
        },
        LayoutKind::MultiRegion => {
            CircuitPlan::Multi(plan_multi_region(inst0, inst1, nterms))
        },
    }
}

/// Cross-layout equivalence: the two layout strategies, built from the same
/// seed values and the same term count, expose the same output value.
pub proof fn lemma_cross_layout_equivalence(
    ps: SingleRegionPlan,
    pm: MultiRegionPlan,
    s0: int,
    s1: int,
)
    requires
        single_plan_ok(ps, s0, s1),
        multi_plan_ok(pm, s0, s1),
        ps.nrows == pm.nterms,
    ensures
        ps.values@[ps.nrows - 1]@ == pm.terms@[pm.nterms - 1]@,
{
}

} // verus!
