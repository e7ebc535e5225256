use prin_train::allocation::{distribute_deficit, rule_band_counts, validate_allocator_range};
use prin_train::dataset::pick_swap_pair;
use prin_train::hierarchical_layers::{
    automatic_sparse_k, neighbor_count, resolve_sparse_k, sparse_neighbor_indices,
    validate_hierarchical_sizes, validate_sparse_k,
};
use prin_train::inhibition::{validate_inhibition_counts, winner_count};
use prin_train::layers::{resonance_param_shapes, validate_resonance_sizes};
use prin_train::phase_tracker::{count_matched, matched_pairs, IdentityTally};
use prin_train::TrainError;

#[test]
fn sparse_neighbors_follow_reference_sorted_ring() {
    // Phases [4, 0, 2, 1] sort ascending as oscillators [1, 3, 2, 0].
    let idx = sparse_neighbor_indices(&[1, 3, 2, 0], 2);
    let flat: Vec<usize> = idx.into_iter().flatten().collect();
    assert_eq!(flat, vec![2, 1, 0, 3, 3, 0, 1, 2]);
}

#[test]
fn automatic_sparse_k_and_odd_even_rings_cover_boundary_rules() {
    assert_eq!(automatic_sparse_k(0), 0);
    assert_eq!(automatic_sparse_k(1), 0);
    assert_eq!(automatic_sparse_k(2), 1);
    assert_eq!(automatic_sparse_k(5), 3);
    assert_eq!(automatic_sparse_k(8), 3);

    // Phases [0, 1, 2, 3, 4] are already sorted.
    let order = [0, 1, 2, 3, 4];
    let odd = sparse_neighbor_indices(&order, 3);
    let even = sparse_neighbor_indices(&order, 4);
    assert_eq!(&odd[0][..], &[4, 1, 2]);
    assert_eq!(&even[0][..], &[3, 4, 1, 2]);
}

#[test]
fn automatic_sparse_k_is_ceil_log2_within_ring() {
    for n in 2..200usize {
        let k = automatic_sparse_k(n);
        assert!(1 <= k && k <= n - 1);
        assert!(1usize << (k - 1) < n && n <= 1usize << k);
    }
    assert_eq!(automatic_sparse_k(9), 4);
    assert_eq!(automatic_sparse_k(1024), 10);
    assert_eq!(automatic_sparse_k(1025), 11);
}

#[test]
fn neighbor_rows_exclude_self_and_repeat_nothing() {
    let order = [6, 2, 0, 5, 1, 3, 4];
    for k in 1..7 {
        let rows = sparse_neighbor_indices(&order, k);
        for (i, row) in rows.iter().enumerate() {
            assert_eq!(row.len(), k);
            assert!(!row.contains(&i));
            let mut sorted = row.clone();
            sorted.sort();
            sorted.dedup();
            assert_eq!(sorted.len(), k);
        }
    }
}

#[test]
fn sparse_k_resolution_and_neighbor_cap() {
    assert_eq!(resolve_sparse_k(Some(2), 16), 2);
    assert_eq!(resolve_sparse_k(None, 16), 4);
    assert_eq!(resolve_sparse_k(None, 1), 0);
    assert_eq!(neighbor_count(0, 5), 1);
    assert_eq!(neighbor_count(9, 5), 4);
    assert_eq!(neighbor_count(3, 5), 3);
}

#[test]
fn allocator_range_validated() {
    assert!(matches!(validate_allocator_range(2, 64).unwrap_err(), TrainError::InvalidAllocatorRange { .. }));
    assert!(matches!(validate_allocator_range(64, 12).unwrap_err(), TrainError::InvalidAllocatorRange { .. }));
    assert_eq!(
        validate_allocator_range(64, 12),
        Err(TrainError::InvalidAllocatorRange { min_total: 64, max_total: 12 })
    );
    assert!(validate_allocator_range(12, 64).is_ok());
}

#[test]
fn rule_counts_floor_every_band_at_one() {
    // total 12, ratios 0.1/0.2: round(1.2) = 1, round(2.4) = 2.
    assert_eq!(rule_band_counts(12, 1, 2), (1, 2, 9));
    // A tiny budget still gives every band one oscillator.
    assert_eq!(rule_band_counts(0, 0, 0), (1, 1, 1));
    assert_eq!(rule_band_counts(-3, 0, 0), (1, 1, 1));
    assert_eq!(rule_band_counts(64, 6, 13), (6, 13, 45));
}

#[test]
fn learned_split_hands_out_the_shortfall_by_remainder() {
    // total 10, fractions 0.26/0.33/0.41 -> raw 2.6/3.3/4.1, floors 2/3/4,
    // remainders 0.6/0.3/0.1 -> order [0, 1, 2]; shortfall 1 goes to band 0.
    assert_eq!(distribute_deficit(10, [2, 3, 4], [0, 1, 2]), [3, 3, 4]);
    // shortfall 2 goes to the two largest remainders.
    assert_eq!(distribute_deficit(11, [2, 3, 4], [2, 0, 1]), [3, 3, 5]);
    // no shortfall: floors are kept, zero floors raised to one.
    assert_eq!(distribute_deficit(5, [0, 0, 5], [0, 1, 2]), [1, 1, 5]);
}

#[test]
fn inhibition_zero_oscillators_rejected() {
    assert!(matches!(
        validate_inhibition_counts(0, None).unwrap_err(),
        TrainError::EmptyBand { name: "oscillators" }
    ));
}

#[test]
fn zero_k_rejected() {
    assert!(matches!(validate_inhibition_counts(8, Some(0)).unwrap_err(), TrainError::InvalidTopK { k: 0 }));
    assert!(validate_inhibition_counts(8, Some(1)).is_ok());
    assert!(validate_inhibition_counts(8, None).is_ok());
}

#[test]
fn explicit_k_is_used_directly() {
    let share = (10.0f64 * 0.1) as usize;
    assert_eq!(winner_count(Some(4), share, 10), 4);
}

#[test]
fn k_derived_from_sparsity_floors_and_floors_at_one() {
    // floor(10*0.1) = 1.
    assert_eq!(winner_count(None, (10.0f64 * 0.1) as usize, 10), 1);
    // floor(10*0.35) = 3.
    assert_eq!(winner_count(None, (10.0f64 * 0.35) as usize, 10), 3);
    // Vanishingly small sparsity still floors at k=1, not 0.
    assert_eq!(winner_count(None, (10.0f64 * 0.001) as usize, 10), 1);
}

#[test]
fn k_clamped_to_n_oscillators() {
    assert_eq!(winner_count(Some(100), (5.0f64 * 0.1) as usize, 5), 5);
}

#[test]
fn identity_tally_counts_matches_and_possibilities() {
    assert_eq!(count_matched(&[0, -1, 2, 1]), 3);
    assert_eq!(count_matched(&[]), 0);
    let mut tally = IdentityTally::new();
    assert_eq!(tally.denominator(), 1);
    tally.record_frame(&[1, 0, -1], 3, 2);
    tally.record_frame(&[-1, -1], 2, 4);
    assert_eq!((tally.matched, tally.possible), (2, 4));
    assert_eq!(tally.denominator(), 4);
}

#[test]
fn matched_pairs_list_prev_and_curr_indices() {
    assert_eq!(matched_pairs(&[1, -1, 0, 2]), vec![(0, 1), (2, 0), (3, 2)]);
    assert!(matched_pairs(&[-1, -1]).is_empty());
    assert_eq!(matched_pairs(&[1, -1, 0, 2]).len(), count_matched(&[1, -1, 0, 2]));
}

#[test]
fn swap_pair_is_two_distinct_objects() {
    assert_eq!(pick_swap_pair(2, [0, 0]), (0, 1));
    // draws (2, 0): slot 0 takes object 2, then slot 1 keeps object 1.
    assert_eq!(pick_swap_pair(4, [2, 0]), (2, 1));
    // draws (2, 1): slot 1 would take slot 2, which now holds object 0.
    assert_eq!(pick_swap_pair(4, [2, 1]), (2, 0));
    for n in 3..8usize {
        for d0 in 0..n {
            for d1 in 0..n - 1 {
                let (i, j) = pick_swap_pair(n, [d0, d1]);
                assert!(i < n && j < n && i != j);
            }
        }
    }
}

#[test]
fn hierarchical_sizes_reject_each_integer_boundary() {
    for (sizes, expected) in [((0, 1, 1), "delta"), ((1, 0, 1), "theta"), ((1, 1, 0), "gamma")] {
        assert!(matches!(
            validate_hierarchical_sizes(sizes.0, sizes.1, sizes.2, 2, 10).unwrap_err(),
            TrainError::EmptyBand { name } if name == expected
        ));
    }
    assert!(matches!(
        validate_hierarchical_sizes(1, 1, 1, 0, 10).unwrap_err(),
        TrainError::EmptyBand { name: "input" }
    ));
    assert_eq!(
        validate_hierarchical_sizes(1, 1, 1, 2, 0),
        Err(TrainError::InvalidStepCount { name: "n_steps", value: 0 })
    );
    assert!(validate_hierarchical_sizes(1, 1, 1, 2, 1).is_ok());
    assert_eq!(validate_sparse_k(Some(0)), Err(TrainError::InvalidTopK { k: 0 }));
    assert!(validate_sparse_k(Some(1)).is_ok() && validate_sparse_k(None).is_ok());
}

#[test]
fn resonance_layer_sizes_and_shapes() {
    assert_eq!(validate_resonance_sizes(0, 3), Err(TrainError::EmptyBand { name: "oscillators" }));
    assert_eq!(validate_resonance_sizes(4, 0), Err(TrainError::EmptyBand { name: "dims" }));
    assert!(validate_resonance_sizes(4, 3).is_ok());
    let shapes = resonance_param_shapes(4, 3);
    let got: Vec<(&str, Vec<usize>)> = shapes.iter().map(|s| (s.name, s.dims.clone())).collect();
    assert_eq!(
        got,
        vec![
            ("coupling", vec![4, 4]),
            ("decay", vec![4]),
            ("input_proj", vec![3, 4]),
            ("modulation", vec![4, 4]),
            ("base_frequency", vec![4]),
        ]
    );
}

#[test]
fn identity_preservation_stays_within_one_for_matchings() {
    let mut tally = IdentityTally::new();
    // Every previous object matched, but only two current objects exist.
    tally.record_frame(&[1, 0], 2, 2);
    tally.record_frame(&[0, -1, 1], 3, 2);
    tally.record_frame(&[2, 0, 1], 3, 3);
    assert_eq!((tally.matched, tally.possible), (7, 7));
    assert!(tally.matched <= tally.denominator());
}
