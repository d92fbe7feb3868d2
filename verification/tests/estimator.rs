//! End-to-end checks of the estimator library on concrete values.

use qsharp_alice_bob_resource_estimator::code::{
    CYCLE_TIME_PER_DISTANCE_NS, DEFAULT_THRESHOLD_THOUSANDTHS, MAX_DISTANCE, MAX_MEAN_PHOTONS,
};
use qsharp_alice_bob_resource_estimator::qubit::DEFAULT_LOSS_RATIO_PPB;
use qsharp_alice_bob_resource_estimator::{
    AliceAndBobEstimates, CatQubit, CodeParameter, LogicalCounts, RepetitionCode, ToffoliBuilder,
};
use std::cmp::Ordering;

#[test]
fn cat_qubit_default_loss_ratio() {
    let q = CatQubit::new();
    assert_eq!(q.loss_ratio_ppb, DEFAULT_LOSS_RATIO_PPB);
    assert_eq!(q.loss_ratio_ppb, 10_000);
    let d = CatQubit::default();
    assert_eq!(d, q);
}

#[test]
fn repetition_code_threshold() {
    let c = RepetitionCode::new();
    assert_eq!(c.p_threshold_thousandths, DEFAULT_THRESHOLD_THOUSANDTHS);
    assert_eq!(RepetitionCode::default().p_threshold_thousandths, 13);
}

#[test]
fn physical_qubits_formula() {
    let code = RepetitionCode::new();
    for distance in [1u64, 3, 5, 7, 49] {
        let p = CodeParameter::new(distance, 1);
        assert_eq!(code.physical_qubits(&p), 2 * distance - 1);
    }
}

#[test]
fn physical_qubits_strictly_increasing() {
    let code = RepetitionCode::new();
    let mut last = 0u64;
    let mut distance = 1u64;
    while distance <= MAX_DISTANCE {
        let q = code.physical_qubits(&CodeParameter::new(distance, 1));
        assert!(distance == 1 || q > last);
        last = q;
        distance += 2;
    }
}

#[test]
fn logical_quantities() {
    let code = RepetitionCode::new();
    let qubit = CatQubit::new();
    let p = CodeParameter::new(7, 12);
    assert_eq!(code.logical_qubits(&p), 1);
    assert_eq!(code.logical_cycle_time(&qubit, &p), 7 * CYCLE_TIME_PER_DISTANCE_NS);
    assert_eq!(code.logical_cycle_time(&qubit, &p), 3_500);
}

#[test]
fn parameter_order_by_qubits_then_time() {
    let code = RepetitionCode::new();
    let qubit = CatQubit::new();
    let small = CodeParameter::new(3, 20);
    let large = CodeParameter::new(5, 1);
    assert_eq!(code.code_parameter_cmp(&qubit, &small, &large), Ordering::Less);
    assert_eq!(code.code_parameter_cmp(&qubit, &large, &small), Ordering::Greater);
    // The photon number affects neither qubit count nor cycle time.
    let other = CodeParameter::new(3, 1);
    assert_eq!(code.code_parameter_cmp(&qubit, &small, &other), Ordering::Equal);
}

#[test]
fn smallest_parameter_search_keeps_the_cheapest_acceptable() {
    let code = RepetitionCode::new();
    let qubit = CatQubit::new();
    let cheap = CodeParameter::new(3, 5);
    let costly = CodeParameter::new(9, 2);
    // Unacceptable candidates never replace the kept parameter.
    assert_eq!(code.select_code_parameter(&qubit, None, costly, false), None);
    // The first acceptable candidate is kept.
    let kept = code.select_code_parameter(&qubit, None, costly, true);
    assert_eq!(kept, Some(costly));
    // A strictly cheaper acceptable candidate replaces it.
    let kept = code.select_code_parameter(&qubit, kept, cheap, true);
    assert_eq!(kept, Some(cheap));
    // A costlier one does not.
    let kept = code.select_code_parameter(&qubit, kept, costly, true);
    assert_eq!(kept, Some(cheap));
    // Nor does an equal-cost one: the earlier parameter wins ties.
    let tie = CodeParameter::new(3, 30);
    let kept = code.select_code_parameter(&qubit, kept, tie, true);
    assert_eq!(kept, Some(cheap));
}

#[test]
fn range_starts_at_its_lower_bound() {
    let code = RepetitionCode::new();
    let bound = CodeParameter::new(7, 12);
    let mut range = code.code_parameter_range(Some(&bound));
    let first = range.next().expect("a seeded range is not empty");
    assert_eq!(first, bound);
    // The photon number keeps stepping from the bound.
    assert_eq!(range.next(), Some(CodeParameter::new(7, 13)));
}

#[test]
fn default_range_has_750_elements_in_grid_order() {
    let code = RepetitionCode::new();
    let mut range = code.code_parameter_range(None);
    let mut count = 0u64;
    let mut expected_distance = 1u64;
    let mut expected_photons = 1u64;
    while let Some(p) = range.next() {
        assert_eq!(p.distance, expected_distance);
        assert_eq!(p.mean_photons, expected_photons);
        assert!(p.distance % 2 == 1);
        assert!(p.distance <= MAX_DISTANCE);
        assert!(1 <= p.mean_photons && p.mean_photons <= MAX_MEAN_PHOTONS);
        if expected_photons == MAX_MEAN_PHOTONS {
            expected_photons = 1;
            expected_distance += 2;
        } else {
            expected_photons += 1;
        }
        count += 1;
    }
    assert_eq!(count, 750);
    // The range is not restartable: it stays exhausted.
    assert_eq!(range.next(), None);
}

#[test]
fn catalog_minimum_error_probability() {
    let builder = ToffoliBuilder::default();
    assert_eq!(builder.lowest_error_probability_e16, 374);
    assert_eq!(builder.factories.len(), 15);
}

#[test]
fn factory_figures_of_the_first_catalog_entry() {
    let builder = ToffoliBuilder::default();
    let f = &builder.factories[0];
    assert_eq!(f.code_distance, 3);
    assert_eq!(f.error_probability(), 10_500_000_000_000);
    assert_eq!(f.physical_qubits(), 25);
    assert_eq!(f.duration(), 65_130);
    assert_eq!(f.normalized_volume(), 1_628_250);
    assert_eq!(f.num_output_states(), 1);
}

#[test]
fn find_factories_at_the_catalog_minimum() {
    let builder = ToffoliBuilder::default();
    let found = builder.find_factories(builder.lowest_error_probability_e16);
    assert!(!found.is_empty());
    assert_eq!(found.len(), 1);
    assert_eq!(found[0].error_probability(), 374);
    assert_eq!(found[0].code_distance, 23);
}

#[test]
fn find_factories_filters_and_sorts_by_volume() {
    let builder = ToffoliBuilder::default();
    let target = 1_000_000u64;
    let found = builder.find_factories(target);
    assert_eq!(found.len(), 4);
    for f in &found {
        assert!(f.error_probability() <= target);
    }
    for pair in found.windows(2) {
        assert!(pair[0].normalized_volume() <= pair[1].normalized_volume());
    }
    assert_eq!(found[0].error_probability(), 736_000);
    assert_eq!(found[3].error_probability(), 374);
}

#[test]
fn find_factories_with_a_loose_target_returns_the_whole_catalog() {
    let builder = ToffoliBuilder::default();
    let found = builder.find_factories(10_500_000_000_000);
    assert_eq!(found.len(), 15);
    for pair in found.windows(2) {
        assert!(pair[0].normalized_volume() <= pair[1].normalized_volume());
    }
    assert_eq!(builder.num_magic_state_types(), 1);
}

#[test]
fn counter_reuses_released_qubits_lifo() {
    let mut counts = LogicalCounts::new(0, 0, 0);
    let q0 = counts.qubit_allocate();
    let q1 = counts.qubit_allocate();
    let q2 = counts.qubit_allocate();
    assert_eq!((q0, q1, q2), (0, 1, 2));
    assert_eq!(counts.qubit_count, 3);
    counts.qubit_release(q1);
    assert_eq!(counts.qubit_count, 3);
    let reused = counts.qubit_allocate();
    assert_eq!(reused, q1);
    // The qubit count never decreases, even across release and reuse.
    assert_eq!(counts.qubit_count, 3);
    let fresh = counts.qubit_allocate();
    assert_eq!(fresh, 3);
    assert_eq!(counts.qubit_count, 4);
}

#[test]
fn gate_tallies() {
    let mut counts = LogicalCounts::new(0, 0, 0);
    counts.cx(0, 1);
    counts.cy(0, 1);
    counts.cz(0, 1);
    assert_eq!(counts.cx_count, 3);
    counts.swap(0, 1);
    assert_eq!(counts.cx_count, 6);
    counts.ccx(0, 1, 2);
    assert_eq!(counts.ccx_count, 1);
    // Single-qubit gates, measurement and reset are free.
    counts.h(0);
    counts.x(0);
    counts.y(0);
    counts.z(0);
    counts.s(0);
    counts.sadj(0);
    counts.reset(0);
    assert!(!counts.m(0));
    assert!(!counts.mresetz(0));
    assert!(counts.qubit_is_zero(0));
    assert_eq!(counts.cx_count, 6);
    assert_eq!(counts.ccx_count, 1);
    assert_eq!(counts.qubit_count, 0);
}

#[test]
fn overhead_round_trip_of_a_fixed_tally() {
    let counts = LogicalCounts::new(5, 10, 2);
    assert_eq!(counts.logical_qubits(), 9);
    assert_eq!(counts.num_magic_states(), 2);
    // ⌈2.2 × 10 + 10.1 × 2⌉ = ⌈42.2⌉
    assert_eq!(counts.logical_depth(), Some(43));
    // The conversion is reproducible.
    let again = LogicalCounts::new(5, 10, 2);
    assert_eq!(again.logical_qubits(), 9);
    assert_eq!(again.num_magic_states(), 2);
    assert_eq!(again.logical_depth(), Some(43));
}

#[test]
fn overhead_of_an_elliptic_curve_sized_tally() {
    // Tallies of a 256-bit elliptic-curve discrete-logarithm circuit:
    // 9×256+18+4 qubits, ⌈448×256³/18⌉ CX and ⌈348×256³/18⌉ CCX gates.
    let qubits = 9 * 256 + 18 + 4;
    let cx = (448u64 * 256 * 256 * 256).div_ceil(18);
    let ccx = (348u64 * 256 * 256 * 256).div_ceil(18);
    assert_eq!(qubits, 2_326);
    assert_eq!(cx, 417_566_265);
    assert_eq!(ccx, 324_359_510);
    let counts = LogicalCounts::new(qubits, cx, ccx);
    let logical_qubits = counts.logical_qubits();
    assert_eq!(logical_qubits, 2_326 + 1_163 + 1);
    let depth = counts.logical_depth().expect("depth fits u64");
    assert_eq!(depth, 4_194_676_834);
    assert!(depth > 0);
    assert_eq!(counts.num_magic_states(), ccx);
}

#[test]
fn logical_depth_too_large_is_reported() {
    let counts = LogicalCounts::new(0, u64::MAX, u64::MAX);
    assert_eq!(counts.logical_depth(), None);
}

#[test]
fn factory_figures_of_the_last_catalog_entry() {
    let builder = ToffoliBuilder::default();
    let f = &builder.factories[14];
    assert_eq!(f.code_distance, 23);
    assert_eq!(f.error_probability(), 374);
    assert_eq!(f.physical_qubits(), 225);
    assert_eq!(f.duration(), 9_273_672);
    assert_eq!(f.normalized_volume(), 2_086_576_200);
}

#[test]
fn logical_depth_of_empty_tally_is_zero() {
    let counts = LogicalCounts::new(0, 0, 0);
    assert_eq!(counts.logical_depth(), Some(0));
    assert_eq!(counts.logical_qubits(), 1);
    assert_eq!(counts.num_magic_states(), 0);
}

#[test]
fn estimate_composition_adds_vertical_routing() {
    let e = AliceAndBobEstimates {
        base_physical_qubits: 1_000,
        routed_logical_qubits: 10,
        factory_copies: 2,
        factory_physical_qubits: 300,
    };
    // 1000 + 2 × (3 × (10 + 2×5) − 1)
    assert_eq!(e.physical_qubits(), 1_118);
    // 300 / 1118 = 26.83%, in hundredths of a percent.
    assert_eq!(e.factory_fraction(), 2_683);
}

#[test]
fn estimate_composition_without_factories() {
    let e = AliceAndBobEstimates {
        base_physical_qubits: 9,
        routed_logical_qubits: 4,
        factory_copies: 0,
        factory_physical_qubits: 0,
    };
    assert_eq!(e.physical_qubits(), 9 + 2 * (3 * 4 - 1));
    assert_eq!(e.factory_fraction(), 0);
}
