use prin_train::flops::{count_flops, LayerSpec};

#[test]
fn linear_flops_hand_computed_with_bias() {
    let report = count_flops(
        &[LayerSpec::Linear { name: "l1".into(), in_features: 4, out_features: 8, bias: true }],
        1,
    );
    // 2*4*8 + 8 = 72.
    assert_eq!(report.total_flops, 72);
    assert_eq!(report.total_params, 4 * 8 + 8);
    assert_eq!(report.layer_flops[0].layer_type, "Linear");
}

#[test]
fn linear_flops_hand_computed_without_bias() {
    let report = count_flops(
        &[LayerSpec::Linear { name: "l1".into(), in_features: 4, out_features: 8, bias: false }],
        1,
    );
    assert_eq!(report.total_flops, 64);
    assert_eq!(report.total_params, 32);
}

#[test]
fn flops_scale_linearly_with_batch_size() {
    let layers = [LayerSpec::Linear { name: "l1".into(), in_features: 4, out_features: 8, bias: true }];
    let single = count_flops(&layers, 1);
    let batched = count_flops(&layers, 8);
    assert_eq!(batched.total_flops, single.total_flops * 8);
    // Params never scale with batch size.
    assert_eq!(batched.total_params, single.total_params);
}

#[test]
fn zero_batch_size_is_treated_as_one() {
    let layers = [LayerSpec::Linear { name: "l1".into(), in_features: 2, out_features: 2, bias: false }];
    let zero = count_flops(&layers, 0);
    let one = count_flops(&layers, 1);
    assert_eq!(zero.total_flops, one.total_flops);
}

#[test]
fn conv2d_flops_omits_output_spatial_size_matching_reference_behavior() {
    // 2 * C_in * C_out * K_h * K_w, no H_out*W_out factor.
    let report = count_flops(
        &[LayerSpec::Conv2d {
            name: "c1".into(),
            in_channels: 3,
            out_channels: 16,
            kernel_h: 3,
            kernel_w: 3,
        }],
        1,
    );
    assert_eq!(report.total_flops, 2 * 3 * 16 * 3 * 3);
}

#[test]
fn gru_cell_flops_hand_computed() {
    let report = count_flops(
        &[LayerSpec::GruCell { name: "g1".into(), input_size: 8, hidden_size: 16 }],
        1,
    );
    // 3 * 2 * (8 + 16) * 16 = 2304.
    assert_eq!(report.total_flops, 2304);
}

#[test]
fn multi_layer_report_sums_and_preserves_order() {
    let report = count_flops(
        &[
            LayerSpec::Linear { name: "a".into(), in_features: 2, out_features: 2, bias: false },
            LayerSpec::GruCell { name: "b".into(), input_size: 2, hidden_size: 2 },
        ],
        1,
    );
    assert_eq!(report.layer_flops.len(), 2);
    assert_eq!(report.layer_flops[0].name, "a");
    assert_eq!(report.layer_flops[1].name, "b");
    assert_eq!(report.total_flops, report.layer_flops[0].flops + report.layer_flops[1].flops);
}

#[test]
fn empty_layers_gives_zero_report() {
    let report = count_flops(&[], 4);
    assert_eq!(report.total_flops, 0);
    assert_eq!(report.total_params, 0);
    assert!(report.layer_flops.is_empty());
}

#[test]
fn conv2d_and_gru_parameter_counts_include_biases() {
    let report = count_flops(
        &[
            LayerSpec::Conv2d {
                name: "c".into(),
                in_channels: 3,
                out_channels: 16,
                kernel_h: 3,
                kernel_w: 3,
            },
            LayerSpec::GruCell { name: "g".into(), input_size: 8, hidden_size: 16 },
        ],
        2,
    );
    assert_eq!(report.layer_flops[0].params, 3 * 16 * 3 * 3 + 16);
    assert_eq!(report.layer_flops[0].layer_type, "Conv2d");
    assert_eq!(report.layer_flops[1].params, 3 * (8 + 16 + 2) * 16);
    assert_eq!(report.layer_flops[1].layer_type, "GruCell");
    assert_eq!(report.total_params, 448 + 1248);
    assert_eq!(report.total_flops, 2 * (864 + 2304));
}

#[test]
fn concatenated_layer_lists_add_their_totals() {
    let a = vec![LayerSpec::Linear { name: "a".into(), in_features: 3, out_features: 5, bias: true }];
    let b = vec![LayerSpec::GruCell { name: "b".into(), input_size: 4, hidden_size: 2 }];
    let mut ab = a.clone();
    ab.extend(b.clone());
    let (ra, rb, rab) = (count_flops(&a, 3), count_flops(&b, 3), count_flops(&ab, 3));
    assert_eq!(rab.total_flops, ra.total_flops + rb.total_flops);
    assert_eq!(rab.total_params, ra.total_params + rb.total_params);
}

#[test]
fn bias_free_linear_layer_may_fill_the_u64_range() {
    let out = (u64::MAX / 2) as usize;
    let report = count_flops(
        &[LayerSpec::Linear { name: "wide".into(), in_features: 1, out_features: out, bias: false }],
        1,
    );
    assert_eq!(report.total_flops, u64::MAX - 1);
    assert_eq!(report.total_params, u64::MAX / 2);
}
