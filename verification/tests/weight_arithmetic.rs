use manta_xcm_weight::weight::{saturating_mul_u64, Weight};

#[test]
fn from_parts_keeps_both_dimensions() {
    let w = Weight::from_parts(17, 4);
    assert_eq!(w.ref_time(), 17);
    assert_eq!(w.proof_size(), 4);
    assert_eq!(w, Weight { ref_time: 17, proof_size: 4 });
}

#[test]
fn zero_and_max_are_the_extremes() {
    assert_eq!(Weight::zero(), Weight::from_parts(0, 0));
    assert_eq!(Weight::max_value(), Weight::from_parts(u64::MAX, u64::MAX));
}

#[test]
fn scalar_product_is_exact_when_it_fits() {
    assert_eq!(saturating_mul_u64(100_000_000, 3), 300_000_000);
    assert_eq!(saturating_mul_u64(0, u64::MAX), 0);
    assert_eq!(saturating_mul_u64(u64::MAX, 1), u64::MAX);
    assert_eq!(saturating_mul_u64(1 << 32, (1 << 32) - 1), 0xffff_ffff_0000_0000);
}

#[test]
fn scalar_product_clamps_at_the_ceiling() {
    assert_eq!(saturating_mul_u64(1 << 32, 1 << 32), u64::MAX);
    assert_eq!(saturating_mul_u64(u64::MAX, 2), u64::MAX);
    assert_eq!(saturating_mul_u64(u64::MAX / 2 + 1, 2), u64::MAX);
    assert_eq!(saturating_mul_u64(u64::MAX / 2, 2), u64::MAX - 1);
    assert_eq!(saturating_mul_u64(u64::MAX, u64::MAX), u64::MAX);
}

#[test]
fn scaling_is_per_dimension() {
    let base = Weight::from_parts(100_000_000, 7);
    assert_eq!(base.saturating_mul(3), Weight::from_parts(300_000_000, 21));
    assert_eq!(base.saturating_mul(0), Weight::zero());
    assert_eq!(base.saturating_mul(1), base);
}

#[test]
fn scaling_clamps_one_dimension_without_touching_the_other() {
    let base = Weight::from_parts(u64::MAX / 2 + 1, 5);
    assert_eq!(base.saturating_mul(2), Weight::from_parts(u64::MAX, 10));
    let base = Weight::from_parts(5, u64::MAX - 1);
    assert_eq!(base.saturating_mul(3), Weight::from_parts(15, u64::MAX));
}

#[test]
fn scaling_past_the_ceiling_in_both_dimensions_is_max() {
    let base = Weight::from_parts(u64::MAX - 3, u64::MAX / 3 + 1);
    assert_eq!(base.saturating_mul(3), Weight::max_value());
    assert_eq!(base.saturating_mul(u64::MAX), Weight::max_value());
}

#[test]
fn max_stays_max_under_scaling() {
    assert_eq!(Weight::max_value().saturating_mul(1), Weight::max_value());
    assert_eq!(Weight::max_value().saturating_mul(100), Weight::max_value());
    assert_eq!(Weight::max_value().saturating_mul(u64::MAX), Weight::max_value());
}

#[test]
fn scaling_grows_with_the_multiplier() {
    let bases = [
        Weight::from_parts(0, 0),
        Weight::from_parts(1, 9),
        Weight::from_parts(100_000_000, 3_000),
        Weight::from_parts(u64::MAX / 100, u64::MAX / 3),
        Weight::max_value(),
    ];
    let multipliers = [0u64, 1, 2, 3, 99, 100, 101, 1 << 31, 1 << 40, u64::MAX - 1, u64::MAX];
    for base in bases {
        for i in 0..multipliers.len() {
            for j in i..multipliers.len() {
                let small = base.saturating_mul(multipliers[i]);
                let large = base.saturating_mul(multipliers[j]);
                assert!(small.all_lte(large));
            }
        }
    }
}

#[test]
fn min_is_taken_per_dimension() {
    let a = Weight::from_parts(1_000_000_000, 0);
    let b = Weight::from_parts(300_000_000, 64);
    assert_eq!(a.min(b), Weight::from_parts(300_000_000, 0));
    assert_eq!(b.min(a), Weight::from_parts(300_000_000, 0));
    assert_eq!(a.min(a), a);
    assert_eq!(Weight::max_value().min(b), b);
}

#[test]
fn all_lte_needs_both_dimensions() {
    let a = Weight::from_parts(3, 9);
    assert!(a.all_lte(a));
    assert!(a.all_lte(Weight::from_parts(3, 10)));
    assert!(!a.all_lte(Weight::from_parts(2, 10)));
    assert!(!a.all_lte(Weight::from_parts(4, 8)));
    assert!(Weight::zero().all_lte(a));
    assert!(a.all_lte(Weight::max_value()));
}

#[test]
fn arithmetic_agrees_with_the_runtime_weight() {
    let samples = [
        0u64,
        1,
        2,
        7,
        100,
        100_000_000,
        1_000_000_000,
        (1 << 32) - 1,
        1 << 32,
        u64::MAX / 3,
        u64::MAX / 2,
        u64::MAX / 2 + 1,
        u64::MAX - 1,
        u64::MAX,
    ];
    assert_eq!(Weight::max_value().ref_time(), sp_weights::Weight::MAX.ref_time());
    assert_eq!(Weight::max_value().proof_size(), sp_weights::Weight::MAX.proof_size());
    assert_eq!(Weight::zero().ref_time(), sp_weights::Weight::zero().ref_time());
    assert_eq!(Weight::zero().proof_size(), sp_weights::Weight::zero().proof_size());
    for t in samples {
        for s in samples {
            let ours = Weight::from_parts(t, s);
            let theirs = sp_weights::Weight::from_parts(t, s);
            for m in samples {
                let scaled = ours.saturating_mul(m);
                let expected = theirs.saturating_mul(m);
                assert_eq!(scaled.ref_time(), expected.ref_time());
                assert_eq!(scaled.proof_size(), expected.proof_size());
                let other = Weight::from_parts(m, t);
                let met = ours.min(other);
                let expected = theirs.min(sp_weights::Weight::from_parts(m, t));
                assert_eq!(met.ref_time(), expected.ref_time());
                assert_eq!(met.proof_size(), expected.proof_size());
                assert_eq!(
                    ours.all_lte(other),
                    theirs.all_lte(sp_weights::Weight::from_parts(m, t))
                );
            }
        }
    }
}
