//! Tests of the witness computation and the two table plans.

use fib_circuit::circuit::{plan_circuit, CircuitPlan, LayoutKind};
use fib_circuit::fib::fib_scalars;
use fib_circuit::layout_multi::plan_multi_region;
use fib_circuit::layout_single::plan_single_region;
use fib_circuit::scalar::Scalar;

#[test]
fn fib_values_match_scenario() {
    let s0 = Scalar::from_u64(1);
    let s1 = Scalar::from_u64(1);
    let terms = fib_scalars(&s0, &s1, 11);
    let expected: Vec<u64> = vec![1, 1, 2, 3, 5, 8, 13, 21, 34, 55, 89];
    assert_eq!(terms.len(), 11);
    for (t, e) in terms.iter().zip(expected.iter()) {
        assert!(t.eq_value(&Scalar::from_u64(*e)));
    }
}

#[test]
fn fib_value_differs_from_wrong_term() {
    let s0 = Scalar::from_u64(1);
    let s1 = Scalar::from_u64(1);
    let terms = fib_scalars(&s0, &s1, 11);
    assert!(!terms[10].eq_value(&Scalar::from_u64(88)));
}

#[test]
fn fib_values_with_distinct_seeds() {
    let s0 = Scalar::from_u64(2);
    let s1 = Scalar::from_u64(5);
    let terms = fib_scalars(&s0, &s1, 6);
    let expected: Vec<u64> = vec![2, 5, 7, 12, 19, 31];
    for (t, e) in terms.iter().zip(expected.iter()) {
        assert!(t.eq_value(&Scalar::from_u64(*e)));
    }
}

#[test]
fn selector_boundary_at_eleven_rows() {
    let s0 = Scalar::from_u64(1);
    let s1 = Scalar::from_u64(1);
    let p = plan_single_region(&s0, &s1, 0, 0, 11);
    assert_eq!(p.selector.len(), 11);
    for r in 0..9 {
        assert!(p.selector[r]);
    }
    assert!(!p.selector[9]);
    assert!(!p.selector[10]);
    assert_eq!(p.output_row, 10);
    assert_eq!(p.output_slot, 2);
}

#[test]
fn single_plan_output_is_eighty_nine() {
    let s0 = Scalar::from_u64(1);
    let s1 = Scalar::from_u64(1);
    let p = plan_single_region(&s0, &s1, 0, 0, 11);
    assert!(p.values[10].eq_value(&Scalar::from_u64(89)));
}

#[test]
fn multi_plan_copy_wiring() {
    let s0 = Scalar::from_u64(1);
    let s1 = Scalar::from_u64(1);
    let p = plan_multi_region(&s0, &s1, 11);
    assert_eq!(p.copies.len(), 16);
    // Region 1 copies region 0's columns 1 and 2.
    assert_eq!(p.copies[0].src_region, 0);
    assert_eq!(p.copies[0].src_col, 1);
    assert_eq!(p.copies[0].dst_region, 1);
    assert_eq!(p.copies[0].dst_col, 0);
    assert_eq!(p.copies[1].src_region, 0);
    assert_eq!(p.copies[1].src_col, 2);
    assert_eq!(p.copies[1].dst_region, 1);
    assert_eq!(p.copies[1].dst_col, 1);
    // Region 2 and later copy the two preceding regions' third cells.
    assert_eq!(p.copies[2].src_region, 0);
    assert_eq!(p.copies[2].src_col, 2);
    assert_eq!(p.copies[2].dst_region, 2);
    assert_eq!(p.copies[2].dst_col, 0);
    assert_eq!(p.copies[15].src_region, 7);
    assert_eq!(p.copies[15].src_col, 2);
    assert_eq!(p.copies[15].dst_region, 8);
    assert_eq!(p.copies[15].dst_col, 1);
    assert!(p.terms[10].eq_value(&Scalar::from_u64(89)));
}

#[test]
fn cross_layout_outputs_equal() {
    let s0 = Scalar::from_u64(3);
    let s1 = Scalar::from_u64(4);
    let ps = plan_single_region(&s0, &s1, 0, 1, 11);
    let pm = plan_multi_region(&s0, &s1, 11);
    assert!(ps.values[10].eq_value(&pm.terms[10]));
}

#[test]
fn both_seed_slot_interpretations_agree_on_scenario() {
    // The single-region layout as written reads instance slot 0 for both
    // seed rows; the intended wiring reads slots 0 and 1. With the scenario
    // seeds (1, 1) the two interpretations build the same table.
    let s = Scalar::from_u64(1);
    let duplicated = plan_single_region(&s, &s, 0, 0, 11);
    let intended = plan_single_region(&s, &s, 0, 1, 11);
    assert_eq!(duplicated.seed1_slot, 0);
    assert_eq!(intended.seed1_slot, 1);
    assert!(duplicated.values[10].eq_value(&intended.values[10]));
    assert!(duplicated.values[10].eq_value(&Scalar::from_u64(89)));
}

#[test]
fn driver_builds_both_layouts() {
    let s0 = Scalar::from_u64(1);
    let s1 = Scalar::from_u64(1);
    let single = plan_circuit(LayoutKind::SingleRegion, &s0, &s1, 11);
    let multi = plan_circuit(LayoutKind::MultiRegion, &s0, &s1, 11);
    let expected = Scalar::from_u64(89);
    match single {
        CircuitPlan::Single(p) => {
            assert_eq!(p.seed0_slot, 0);
            assert_eq!(p.seed1_slot, 0);
            assert!(p.values[10].eq_value(&expected));
        }
        CircuitPlan::Multi(_) => panic!("single-region layout expected"),
    }
    match multi {
        CircuitPlan::Multi(p) => {
            assert!(p.terms[10].eq_value(&expected));
        }
        CircuitPlan::Single(_) => panic!("multi-region layout expected"),
    }
}

#[test]
fn capacity_bits_smallest_power_of_two() {
    assert_eq!(fib_circuit::circuit::capacity_bits(1), 0);
    assert_eq!(fib_circuit::circuit::capacity_bits(2), 1);
    assert_eq!(fib_circuit::circuit::capacity_bits(11), 4);
    assert_eq!(fib_circuit::circuit::capacity_bits(16), 4);
    assert_eq!(fib_circuit::circuit::capacity_bits(17), 5);
}
