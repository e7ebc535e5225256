use prin_train::activations::GatedPhaseActivationConfig;
use prin_train::attention::{attention_head_dim, attention_param_shapes};
use prin_train::autoencoders::{
    validate_rate_autoencoder_sizes, DenseAutoencoderConfig, PhaseToRateMode, NAN_BITS,
};
use prin_train::bands::{band_param_shapes, validate_band_sizes};
use prin_train::dataset::validate_sequence_dims;
use prin_train::energy::HolomorphicEnergyConfig;
use prin_train::hierarchical_layers::{
    hierarchical_param_shapes, validate_discrete_layer_sizes, validate_hierarchical_sizes,
};
use prin_train::hybrid::{validate_discrete_steps, validate_hybrid_counts};
use prin_train::inhibition_layers::DgLayerConfig;
use prin_train::layers::validate_oscillator_count;
use prin_train::model::{check_layer_counts, check_model_params, validate_model_dims};
use prin_train::phase_tracker::validate_tracker_dims;
use prin_train::rip::check_hebbian_shapes;
use prin_train::shapes::check_param_shapes;
use prin_train::TrainError;

#[test]
fn mode_parse_and_display_round_trip() {
    for text in ["soft", "hard", "annealed"] {
        assert_eq!(PhaseToRateMode::parse(text).unwrap().as_str(), text);
    }
    assert!(matches!(
        PhaseToRateMode::parse("bogus").unwrap_err(),
        TrainError::NonFiniteParameter { name: "mode", .. }
    ));
}

#[test]
fn unrecognised_mode_reports_nan_value() {
    assert_eq!(
        PhaseToRateMode::parse("Soft").unwrap_err(),
        TrainError::NonFiniteParameter { name: "mode", value_bits: NAN_BITS }
    );
    assert!(f64::from_bits(NAN_BITS).is_nan());
    assert_eq!(NAN_BITS, f64::NAN.to_bits());
    assert_eq!(PhaseToRateMode::parse("annealed").unwrap(), PhaseToRateMode::Annealed);
    assert!(PhaseToRateMode::parse("").is_err());
    assert!(PhaseToRateMode::parse("hardd").is_err());
}

#[test]
fn zero_dims_rejected() {
    assert!(matches!(
        GatedPhaseActivationConfig::new(0).unwrap_err(),
        TrainError::EmptyBand { name: "dims" }
    ));
}

#[test]
fn gated_phase_activation_config_reports_dims_and_shapes() {
    let cfg = GatedPhaseActivationConfig::new(7).unwrap();
    assert_eq!(cfg.n_dims, 7);
    let shapes = cfg.param_shapes();
    assert_eq!(shapes.len(), 2);
    assert_eq!((shapes[0].name, shapes[0].dims.clone()), ("gate_weight", vec![7]));
    assert_eq!((shapes[1].name, shapes[1].dims.clone()), ("gate_bias", vec![7]));
    assert!(check_param_shapes(&shapes, &[vec![7], vec![7]]).is_ok());
    assert_eq!(
        check_param_shapes(&shapes, &[vec![7], vec![6]]).unwrap_err(),
        TrainError::ShapeMismatch { name: "gate_bias", expected: vec![7], got: vec![6] }
    );
}

#[test]
fn energy_zero_oscillators_rejected() {
    assert!(matches!(
        HolomorphicEnergyConfig::new(0).unwrap_err(),
        TrainError::EmptyBand { name: "oscillators" }
    ));
}

#[test]
fn n_oscillators_accessor_reports_config_value() {
    let energy = HolomorphicEnergyConfig::new(5).unwrap().init();
    assert_eq!(energy.n_oscillators(), 5);
}

#[test]
fn forward_rejects_wrong_coupling_shape() {
    let energy = HolomorphicEnergyConfig::new(3).unwrap().init();
    let err = energy.check_input_shapes(&[2, 3], &[2, 3], &[2, 3], None, false).unwrap_err();
    assert!(matches!(err, TrainError::ShapeMismatch { name: "coupling", .. }));
}

#[test]
fn forward_rejects_wrong_z_width() {
    let energy = HolomorphicEnergyConfig::new(3).unwrap().init();
    let err = energy.check_input_shapes(&[3, 3], &[2, 4], &[2, 4], None, false).unwrap_err();
    assert!(matches!(err, TrainError::ShapeMismatch { name: "re", .. }));
}

#[test]
fn forward_rejects_wrong_task_loss_shape() {
    let energy = HolomorphicEnergyConfig::new(3).unwrap().init();
    let bad_task: &[usize] = &[2, 2];
    let err = energy.check_input_shapes(&[3, 3], &[2, 3], &[2, 3], Some(bad_task), true).unwrap_err();
    assert!(matches!(err, TrainError::ShapeMismatch { name: "task_loss", .. }));
}

#[test]
fn energy_ignores_task_loss_shape_when_beta_is_zero() {
    let energy = HolomorphicEnergyConfig::new(3).unwrap().init();
    let bad_task: &[usize] = &[2, 2];
    assert_eq!(energy.check_input_shapes(&[3, 3], &[2, 3], &[2, 3], Some(bad_task), false), Ok(2));
    let good_task: &[usize] = &[2, 1];
    assert_eq!(energy.check_input_shapes(&[3, 3], &[2, 3], &[2, 3], Some(good_task), true), Ok(2));
    assert!(matches!(
        energy.check_input_shapes(&[3, 3], &[2, 3], &[1, 3], None, false).unwrap_err(),
        TrainError::ShapeMismatch { name: "im", .. }
    ));
}

#[test]
fn dg_layer_configuration_and_parameter_shapes_are_validated() {
    assert!(matches!(
        DgLayerConfig::with_params(0, 1, 2, 20, 5).unwrap_err(),
        TrainError::EmptyBand { name: "input" }
    ));
    assert!(matches!(
        DgLayerConfig::with_params(4, 0, 2, 20, 5).unwrap_err(),
        TrainError::InvalidTopK { k: 0 }
    ));
    assert!(matches!(
        DgLayerConfig::with_params(4, 2, 2, 20, 0).unwrap_err(),
        TrainError::InvalidStepCount { .. }
    ));
    let cfg = DgLayerConfig::new(4).unwrap();
    let shapes = cfg.param_shapes();
    assert!(matches!(
        check_param_shapes(&shapes, &[vec![2], vec![1]]).unwrap_err(),
        TrainError::ShapeMismatch { name: "ffi_scale", .. }
    ));
    assert!(matches!(
        check_param_shapes(&shapes, &[vec![1], vec![2]]).unwrap_err(),
        TrainError::ShapeMismatch { name: "fbi_temperature", .. }
    ));
    assert!(check_param_shapes(&shapes, &[vec![1], vec![1]]).is_ok());
}

#[test]
fn dg_layer_defaults_and_winner_cap() {
    let cfg = DgLayerConfig::new(4).unwrap();
    assert_eq!(
        (cfg.n_input, cfg.top_k, cfg.ffi_delay, cfg.fbi_delay, cfg.n_integration_steps),
        (4, 8, 2, 20, 5)
    );
    assert_eq!(cfg.effective_top_k(), 4);
    assert_eq!(DgLayerConfig::new(20).unwrap().effective_top_k(), 8);
}

#[test]
fn dense_autoencoder_config_rejects_each_zero_dimension() {
    for (dims, name) in [
        ((0, 4, 5, 3), "n_input"),
        ((6, 0, 5, 3), "n_bottleneck"),
        ((6, 4, 0, 3), "hidden"),
        ((6, 4, 5, 0), "n_classes"),
    ] {
        assert_eq!(
            DenseAutoencoderConfig::with_params(dims.0, dims.1, dims.2, dims.3).unwrap_err(),
            TrainError::EmptyBand { name }
        );
    }
    let cfg = DenseAutoencoderConfig::new(6, 4).unwrap();
    assert_eq!((cfg.hidden, cfg.n_classes), (256, 10));
}

#[test]
fn dense_autoencoder_param_shapes_follow_the_layer_stack() {
    let cfg = DenseAutoencoderConfig::with_params(6, 4, 5, 3).unwrap();
    let shapes = cfg.param_shapes();
    let got: Vec<(&str, Vec<usize>)> = shapes.iter().map(|s| (s.name, s.dims.clone())).collect();
    assert_eq!(
        got,
        vec![
            ("encoder.0", vec![5, 6]),
            ("encoder.0", vec![5]),
            ("encoder.1", vec![4, 5]),
            ("encoder.1", vec![4]),
            ("decoder.0", vec![5, 4]),
            ("decoder.0", vec![5]),
            ("decoder.1", vec![6, 5]),
            ("decoder.1", vec![6]),
            ("classifier", vec![3, 4]),
            ("classifier", vec![3]),
        ]
    );
    let mut dims: Vec<Vec<usize>> = shapes.iter().map(|s| s.dims.clone()).collect();
    assert!(check_param_shapes(&shapes, &dims).is_ok());
    dims[8] = vec![4, 4];
    assert_eq!(
        check_param_shapes(&shapes, &dims).unwrap_err(),
        TrainError::ShapeMismatch { name: "classifier", expected: vec![3, 4], got: vec![4, 4] }
    );
}

#[test]
fn attention_zero_sizes_rejected() {
    assert!(matches!(
        attention_head_dim(0, 4).unwrap_err(),
        TrainError::EmptyBand { name: "d_model" }
    ));
    assert!(matches!(
        attention_head_dim(64, 0).unwrap_err(),
        TrainError::EmptyBand { name: "n_heads" }
    ));
}

#[test]
fn attention_indivisible_heads_rejected() {
    let err = attention_head_dim(65, 4).unwrap_err();
    assert!(matches!(err, TrainError::IndivisibleHeads { d_model: 65, n_heads: 4 }));
    assert_eq!(attention_head_dim(64, 4), Ok(16));
}

#[test]
fn attention_param_shapes_list_projections_then_alpha() {
    let shapes = attention_param_shapes(16, 4);
    assert_eq!(shapes.len(), 11);
    assert_eq!((shapes[0].name, shapes[0].dims.clone()), ("w_q_weight", vec![16, 16]));
    assert_eq!((shapes[8].name, shapes[8].dims.clone()), ("phase_proj_weight", vec![16, 4]));
    assert_eq!((shapes[10].name, shapes[10].dims.clone()), ("alpha", vec![4]));
}

#[test]
fn zero_band_sizes_rejected() {
    assert!(matches!(validate_band_sizes(0, 3, 4).unwrap_err(), TrainError::EmptyBand { name: "delta" }));
    assert!(matches!(validate_band_sizes(2, 0, 4).unwrap_err(), TrainError::EmptyBand { name: "theta" }));
    assert!(matches!(validate_band_sizes(2, 3, 0).unwrap_err(), TrainError::EmptyBand { name: "gamma" }));
    assert!(validate_band_sizes(2, 3, 4).is_ok());
}

#[test]
fn band_param_shapes_cover_the_pac_weights() {
    let shapes = band_param_shapes(2, 3, 4);
    assert_eq!(shapes.len(), 13);
    assert_eq!((shapes[6].name, shapes[6].dims.clone()), ("w_pac_dt", vec![4, 3]));
    assert_eq!((shapes[8].name, shapes[8].dims.clone()), ("w_pac_tg", vec![6, 4]));
    assert_eq!((shapes[12].name, shapes[12].dims.clone()), ("mu_gamma", vec![1, 1]));
}

#[test]
fn zero_dims_and_zero_counts_rejected() {
    assert!(matches!(validate_model_dims(0, 6, 3, 4, 10).unwrap_err(), TrainError::EmptyBand { name: "resonances" }));
    assert!(matches!(validate_model_dims(4, 0, 3, 4, 10).unwrap_err(), TrainError::EmptyBand { name: "dims" }));
    assert!(matches!(validate_model_dims(4, 6, 0, 4, 10).unwrap_err(), TrainError::EmptyBand { name: "concepts" }));
    assert!(matches!(
        validate_model_dims(4, 6, 3, 0, 2).unwrap_err(),
        TrainError::InvalidStepCount { name: "n_layers", .. }
    ));
    assert!(matches!(
        validate_model_dims(4, 6, 3, 2, 0).unwrap_err(),
        TrainError::InvalidStepCount { name: "n_steps", .. }
    ));
}

#[test]
fn init_from_params_validates_layer_and_norm_counts() {
    // n_layers = 2
    assert!(check_layer_counts(2, 1, 2).is_ok());
    assert!(matches!(
        check_layer_counts(2, 0, 2).unwrap_err(),
        TrainError::ShapeMismatch { name: "stacked_layers", .. }
    ));
    assert!(matches!(
        check_layer_counts(2, 1, 1).unwrap_err(),
        TrainError::ShapeMismatch { name: "layer_norms", .. }
    ));
    assert_eq!(
        check_layer_counts(1, 1, 1).unwrap_err(),
        TrainError::ShapeMismatch { name: "stacked_layers", expected: vec![0], got: vec![1] }
    );
}

#[test]
fn zero_detection_dim_rejected() {
    assert!(matches!(
        validate_tracker_dims(0, 4, 8, 16, 5).unwrap_err(),
        TrainError::EmptyBand { name: "detection_dim" }
    ));
}

#[test]
fn zero_band_size_rejected() {
    assert!(matches!(validate_tracker_dims(4, 0, 3, 4, 2).unwrap_err(), TrainError::EmptyBand { name: "delta" }));
}

#[test]
fn zero_discrete_steps_rejected() {
    assert!(matches!(
        validate_tracker_dims(4, 2, 3, 4, 0).unwrap_err(),
        TrainError::InvalidStepCount { .. }
    ));
    assert!(validate_tracker_dims(4, 2, 3, 4, 2).is_ok());
}

#[test]
fn zero_n_objects_rejected() {
    assert!(matches!(validate_sequence_dims(0, 20, 4).unwrap_err(), TrainError::EmptyBand { name: "n_objects" }));
}

#[test]
fn zero_n_frames_rejected() {
    assert!(matches!(validate_sequence_dims(4, 0, 4).unwrap_err(), TrainError::EmptyBand { name: "n_frames" }));
}

#[test]
fn det_dim_below_two_rejected() {
    assert!(matches!(
        validate_sequence_dims(4, 20, 1).unwrap_err(),
        TrainError::InvalidStepCount { name: "det_dim", .. }
    ));
    assert!(validate_sequence_dims(4, 20, 2).is_ok());
}

#[test]
fn hybrid_zero_sizes_rejected() {
    assert!(matches!(
        validate_hybrid_counts(0, 3, 2).unwrap_err(),
        TrainError::EmptyBand { name: "n_input" }
    ));
    assert!(matches!(
        validate_hybrid_counts(8, 0, 2).unwrap_err(),
        TrainError::EmptyBand { name: "n_classes" }
    ));
}

#[test]
fn zero_layers_rejected() {
    let err = validate_hybrid_counts(8, 3, 0).unwrap_err();
    assert!(matches!(err, TrainError::EmptyBand { name: "n_layers" }));
}

#[test]
fn hybrid_indivisible_heads_rejected() {
    assert!(validate_hybrid_counts(8, 3, 1).is_ok());
    let err = attention_head_dim(9, 2).unwrap_err();
    assert!(matches!(err, TrainError::IndivisibleHeads { .. }));
}

#[test]
fn hybrid_discrete_steps_must_be_positive() {
    assert_eq!(
        validate_discrete_steps(0).unwrap_err(),
        TrainError::InvalidStepCount { name: "n_discrete_steps", value: 0 }
    );
    assert!(validate_discrete_steps(5).is_ok());
    assert!(validate_hybrid_counts(1, 1, 1).is_ok());
}

#[test]
fn rip_zero_oscillators_rejected() {
    assert!(matches!(
        validate_oscillator_count(0).unwrap_err(),
        TrainError::EmptyBand { name: "oscillators" }
    ));
    assert!(validate_oscillator_count(5).is_ok());
}

#[test]
fn hebbian_rejects_non_square_coupling() {
    assert_eq!(
        check_hebbian_shapes(4, &[4, 3], &[2, 4], &[2, 4]).unwrap_err(),
        TrainError::ShapeMismatch { name: "coupling", expected: vec![4, 4], got: vec![4, 3] }
    );
}

#[test]
fn hebbian_rejects_phase_width_mismatch() {
    assert_eq!(
        check_hebbian_shapes(4, &[4, 4], &[2, 3], &[2, 3]).unwrap_err(),
        TrainError::ShapeMismatch { name: "phase", expected: vec![2, 4], got: vec![2, 3] }
    );
}

#[test]
fn hebbian_amplitude_must_match_phase() {
    assert_eq!(
        check_hebbian_shapes(4, &[4, 4], &[2, 4], &[3, 4]).unwrap_err(),
        TrainError::ShapeMismatch { name: "amplitude", expected: vec![2, 4], got: vec![3, 4] }
    );
    assert!(check_hebbian_shapes(4, &[4, 4], &[7, 4], &[7, 4]).is_ok());
}

#[test]
fn rate_autoencoder_zero_dimensions_rejected_in_argument_order() {
    assert!(matches!(
        validate_rate_autoencoder_sizes(0, 0, 0, 0).unwrap_err(),
        TrainError::EmptyBand { name: "n_input" }
    ));
    assert!(matches!(
        validate_rate_autoencoder_sizes(4, 0, 8, 2).unwrap_err(),
        TrainError::EmptyBand { name: "n_oscillators" }
    ));
    assert!(matches!(
        validate_rate_autoencoder_sizes(4, 6, 0, 2).unwrap_err(),
        TrainError::EmptyBand { name: "hidden" }
    ));
    assert!(matches!(
        validate_rate_autoencoder_sizes(4, 6, 8, 0).unwrap_err(),
        TrainError::EmptyBand { name: "n_classes" }
    ));
    assert!(validate_rate_autoencoder_sizes(4, 6, 8, 2).is_ok());
}

#[test]
fn discrete_layer_checks_width_then_steps() {
    assert!(matches!(
        validate_discrete_layer_sizes(0, 0).unwrap_err(),
        TrainError::EmptyBand { name: "input" }
    ));
    assert_eq!(
        validate_discrete_layer_sizes(3, 0).unwrap_err(),
        TrainError::InvalidStepCount { name: "n_steps", value: 0 }
    );
    assert!(validate_discrete_layer_sizes(3, 10).is_ok());
}

/// Dimension lists of a resonance layer with `n` oscillators over `d` features.
fn resonance_dims(n: usize, d: usize) -> Vec<Vec<usize>> {
    vec![vec![n, n], vec![n], vec![d, n], vec![n, n], vec![n]]
}

#[test]
fn init_from_params_reports_concept_proj_shape_error() {
    assert!(validate_model_dims(4, 6, 3, 1, 2).is_ok());
    // Layer norm over 4 resonances, then a [4, 4] concept head.
    let err = check_model_params(
        4,
        6,
        3,
        1,
        &resonance_dims(4, 6),
        &[],
        &[vec![vec![4], vec![4]]],
        &[vec![4, 4], vec![4]],
    )
    .unwrap_err();
    assert!(matches!(err, TrainError::ShapeMismatch { name: "concept_proj", .. }));
}

#[test]
fn init_from_params_reports_layer_norm_shape_error() {
    assert!(validate_model_dims(4, 6, 3, 1, 2).is_ok());
    // Layer norm over 3 features, then a [3, 4] concept head.
    let err = check_model_params(
        4,
        6,
        3,
        1,
        &resonance_dims(4, 6),
        &[],
        &[vec![vec![3], vec![3]]],
        &[vec![3, 4], vec![3]],
    )
    .unwrap_err();
    assert!(matches!(err, TrainError::ShapeMismatch { name: "layer_norm.gamma", .. }));
}

#[test]
fn model_params_are_checked_counts_input_stacked_norms_then_head() {
    let norms = |n: usize, k: usize| vec![vec![vec![n], vec![n]]; k];
    let head = [vec![3, 4], vec![3]];
    // A well-formed two-layer parameter set.
    assert!(check_model_params(
        4, 6, 3, 2, &resonance_dims(4, 6), &[resonance_dims(4, 4)], &norms(4, 2), &head
    )
    .is_ok());
    // Counts come first, even with every tensor mis-shaped.
    assert_eq!(
        check_model_params(4, 6, 3, 2, &resonance_dims(1, 1), &[], &norms(1, 2), &head)
            .unwrap_err(),
        TrainError::ShapeMismatch { name: "stacked_layers", expected: vec![1], got: vec![0] }
    );
    assert_eq!(
        check_model_params(
            4, 6, 3, 2, &resonance_dims(1, 1), &[resonance_dims(1, 1)], &norms(4, 1), &head
        )
        .unwrap_err(),
        TrainError::ShapeMismatch { name: "layer_norms", expected: vec![2], got: vec![1] }
    );
    // Then the input layer, whose projection reads the input width.
    assert_eq!(
        check_model_params(
            4, 6, 3, 2, &resonance_dims(4, 4), &[resonance_dims(4, 3)], &norms(3, 2), &head
        )
        .unwrap_err(),
        TrainError::ShapeMismatch { name: "input_proj", expected: vec![6, 4], got: vec![4, 4] }
    );
    // Then the stacked layers, over the resonance width.
    assert_eq!(
        check_model_params(
            4, 6, 3, 2, &resonance_dims(4, 6), &[resonance_dims(4, 3)], &norms(3, 2), &head
        )
        .unwrap_err(),
        TrainError::ShapeMismatch { name: "input_proj", expected: vec![4, 4], got: vec![3, 4] }
    );
    // Then every layer norm: the second one's beta here.
    assert_eq!(
        check_model_params(
            4,
            6,
            3,
            2,
            &resonance_dims(4, 6),
            &[resonance_dims(4, 4)],
            &[vec![vec![4], vec![4]], vec![vec![4], vec![5]]],
            &[vec![2, 4], vec![3]],
        )
        .unwrap_err(),
        TrainError::ShapeMismatch { name: "layer_norm.beta", expected: vec![4], got: vec![5] }
    );
    // And the head's bias last.
    assert_eq!(
        check_model_params(
            4, 6, 3, 2, &resonance_dims(4, 6), &[resonance_dims(4, 4)], &norms(4, 2),
            &[vec![3, 4], vec![4]]
        )
        .unwrap_err(),
        TrainError::ShapeMismatch { name: "concept_proj", expected: vec![3], got: vec![4] }
    );
}

#[test]
fn hierarchical_explicit_params_report_each_shape_error() {
    assert!(validate_hierarchical_sizes(2, 3, 4, 2, 1).is_ok());
    let shapes = hierarchical_param_shapes(2, 3, 4, 2);
    let good = || vec![vec![2, 2], vec![3, 2], vec![4, 2], vec![1], vec![1]];
    assert!(check_param_shapes(&shapes, &good()).is_ok());
    for (slot, expected_name) in
        ["proj_delta", "proj_theta", "proj_gamma", "pac_depth_dt", "pac_depth_tg"].into_iter().enumerate()
    {
        let mut got = good();
        got[slot] = if slot < 3 { vec![1, 2] } else { vec![2] };
        assert!(matches!(
            check_param_shapes(&shapes, &got).unwrap_err(),
            TrainError::ShapeMismatch { name, .. } if name == expected_name
        ));
    }
}
