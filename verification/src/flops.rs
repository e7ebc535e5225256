//! FLOPs estimation for efficiency comparison: closed-form FLOPs and
//! parameter-count formulas for a caller-described list of layers.
//!
//! The `Conv2d` FLOPs figure is `2 * C_in * C_out * K_h * K_w`: it counts
//! one output position and does not scale with the output's spatial size.
use vstd::prelude::*;

verus! {

/// A single layer's shape, for [`count_flops`]'s closed-form formulas.
#[derive(Clone, Debug, PartialEq)]
pub enum LayerSpec {
    /// A fully-connected layer `y = x @ W + b`.
    Linear { name: String, in_features: usize, out_features: usize, bias: bool },
    /// A 2D convolution; its parameter count assumes a bias term.
    Conv2d {
        name: String,
        in_channels: usize,
        out_channels: usize,
        kernel_h: usize,
        kernel_w: usize,
    },
    /// A single-step GRU cell (3 gates); its parameter count assumes biases.
    GruCell { name: String, input_size: usize, hidden_size: usize },
}

/// One layer's contribution to a [`FlopsReport`].
#[derive(Clone, Debug, PartialEq)]
pub struct LayerFlops {
    /// Layer name (from the originating [`LayerSpec`]).
    pub name: String,
    /// Layer kind: `"Linear"`, `"Conv2d"`, or `"GruCell"`.
    pub layer_type: &'static str,
    /// FLOPs for one forward pass through this layer (not scaled by batch size).
    pub flops: u64,
    /// Formula-derived parameter count of this layer.
    pub params: u64,
}

/// Full FLOPs estimation result.
#[derive(Clone, Debug, PartialEq)]
pub struct FlopsReport {
    /// Total FLOPs across all layers, scaled by the (effective) batch size.
    pub total_flops: u64,
    /// Total parameter count across all layers (independent of batch size).
    pub total_params: u64,
    /// Per-layer breakdown, in the order the layers were given.
    pub layer_flops: Vec<LayerFlops>,
}

/// The name a layer was given.
pub open spec fn layer_name(l: LayerSpec) -> String {
    match l {
        LayerSpec::Linear { name, .. } => name,
        LayerSpec::Conv2d { name, .. } => name,
        LayerSpec::GruCell { name, .. } => name,
    }
}

/// The kind string reported for a layer.
pub open spec fn layer_kind(l: LayerSpec) -> &'static str {
    match l {
        LayerSpec::Linear { .. } => "Linear",
        LayerSpec::Conv2d { .. } => "Conv2d",
        LayerSpec::GruCell { .. } => "GruCell",
    }
}

/// FLOPs of one forward pass through a layer.
pub open spec fn layer_flops(l: LayerSpec) -> int {
    match l {
        LayerSpec::Linear { in_features: i, out_features: o, bias, .. } => {
            2 * i * o + if bias {
                o as int
            } else {
                0
            }
        },
        LayerSpec::Conv2d { in_channels: ci, out_channels: co, kernel_h: kh, kernel_w: kw, .. } => 2
            * ci * co * kh * kw,
        LayerSpec::GruCell { input_size: i, hidden_size: h, .. } => 6 * (i + h) * h,
    }
}

/// Parameter count of a layer.
pub open spec fn layer_params(l: LayerSpec) -> int {
    match l {
        LayerSpec::Linear { in_features: i, out_features: o, bias, .. } => {
            i * o + if bias {
                o as int
            } else {
                0
            }
        },
        LayerSpec::Conv2d { in_channels: ci, out_channels: co, kernel_h: kh, kernel_w: kw, .. } => ci
            * co * kh * kw + co,
        LayerSpec::GruCell { input_size: i, hidden_size: h, .. } => 3 * (i + h + 2) * h,
    }
}

/// Every intermediate product of a layer's formulas fits in a `u64`.
pub open spec fn layer_fits(l: LayerSpec) -> bool {
    match l {
        LayerSpec::Linear { in_features: i, out_features: o, bias, .. } => {
            &&& 2 * i <= u64::MAX
            &&& 2 * i * o + (if bias {
                o as int
            } else {
                0
            }) <= u64::MAX
        },
        LayerSpec::Conv2d { in_channels: ci, out_channels: co, kernel_h: kh, kernel_w: kw, .. } => {
            &&& 2 * ci <= u64::MAX
            &&& 2 * ci * co <= u64::MAX
            &&& 2 * ci * co * kh <= u64::MAX
            &&& 2 * ci * co * kh * kw <= u64::MAX
            &&& ci * co * kh * kw + co <= u64::MAX
        },
        LayerSpec::GruCell { input_size: i, hidden_size: h, .. } => {
            &&& 6 * (i + h) <= u64::MAX
            &&& 6 * (i + h) * h <= u64::MAX
            &&& 3 * (i + h + 2) <= u64::MAX
            &&& 3 * (i + h + 2) * h <= u64::MAX
        },
    }
}

/// Sum of the per-layer FLOPs of a layer list.
pub open spec fn sum_flops(layers: Seq<LayerSpec>) -> int
    decreases layers.len(),
{
    if layers.len() == 0 {
        0
    } else {
        sum_flops(layers.drop_last()) + layer_flops(layers.last())
    }
}

/// Sum of the per-layer parameter counts of a layer list.
pub open spec fn sum_params(layers: Seq<LayerSpec>) -> int
    decreases layers.len(),
{
    if layers.len() == 0 {
        0
    } else {
        sum_params(layers.drop_last()) + layer_params(layers.last())
    }
}

/// The batch size the totals are scaled by: a batch size of zero counts as one.
pub open spec fn effective_batch(batch_size: usize) -> int {
    if batch_size == 0 {
        1
    } else {
        batch_size as int
    }
}

/// The total FLOPs [`count_flops`] reports for `layers` at `batch_size`.
pub open spec fn total_flops_spec(layers: Seq<LayerSpec>, batch_size: usize) -> int {
    sum_flops(layers) * effective_batch(batch_size)
}

/// Every figure [`count_flops`] computes for `layers` at `batch_size` fits in a `u64`.
pub open spec fn count_flops_fits(layers: Seq<LayerSpec>, batch_size: usize) -> bool {
    &&& forall|i: int| 0 <= i < layers.len() ==> layer_fits(#[trigger] layers[i])
    &&& total_flops_spec(layers, batch_size) <= u64::MAX
    &&& sum_params(layers) <= u64::MAX
}

proof fn lemma_layer_figures_nonnegative(l: LayerSpec)
    ensures
        layer_flops(l) >= 0,
        layer_params(l) >= 0,
{
    match l {
        LayerSpec::Linear { in_features: i, out_features: o, .. } => {
            assert(i * o >= 0) by (nonlinear_arith);
        },
        LayerSpec::Conv2d { in_channels: ci, out_channels: co, kernel_h: kh, kernel_w: kw, .. } => {
            assert(ci * co * kh * kw >= 0) by (nonlinear_arith);
        },
        LayerSpec::GruCell { input_size: i, hidden_size: h, .. } => {
            assert((i + h) * h >= 0) by (nonlinear_arith);
            assert((i + h + 2) * h >= 0) by (nonlinear_arith);
        },
    }
}

proof fn lemma_sums_monotone(layers: Seq<LayerSpec>, n: int)
    requires
        0 <= n <= layers.len(),
    ensures
        0 <= sum_flops(layers.take(n)) <= sum_flops(layers),
        0 <= sum_params(layers.take(n)) <= sum_params(layers),
    decreases layers.len() - n,
{
    if n == layers.len() {
        assert(layers.take(n) =~= layers);
        lemma_sums_nonnegative(layers);
    } else {
        lemma_sums_monotone(layers, n + 1);
        assert(layers.take(n + 1).drop_last() =~= layers.take(n));
        lemma_layer_figures_nonnegative(layers[n]);
        lemma_sums_nonnegative(layers.take(n));
    }
}

proof fn lemma_sums_nonnegative(layers: Seq<LayerSpec>)
    ensures
        sum_flops(layers) >= 0,
        sum_params(layers) >= 0,
    decreases layers.len(),
{
    if layers.len() > 0 {
        lemma_sums_nonnegative(layers.drop_last());
        lemma_layer_figures_nonnegative(layers.last());
    }
}

/// The per-layer figures of one layer, computed with `u64` arithmetic.
fn layer_figures(layer: &LayerSpec) -> (r: (String, &'static str, u64, u64))
    requires
        layer_fits(*layer),
    ensures
        r.0@ == layer_name(*layer)@,
        r.1 == layer_kind(*layer),
        r.2 == layer_flops(*layer),
        r.3 == layer_params(*layer),
{
    match layer {
        LayerSpec::Linear { name, in_features, out_features, bias } => {
            let i = *in_features as u64;
            let o = *out_features as u64;
            assert(i * o <= 2 * i * o) by (nonlinear_arith)
                requires
                    i >= 0,
                    o >= 0,
            ;
            let mut flops: u64 = 2 * i * o;
            let mut params: u64 = i * o;
            if *bias {
                flops = flops + o;
                params = params + o;
            }
            (name.clone(), "Linear", flops, params)
        },
        LayerSpec::Conv2d { name, in_channels, out_channels, kernel_h, kernel_w } => {
            let ci = *in_channels as u64;
            let co = *out_channels as u64;
            let kh = *kernel_h as u64;
            let kw = *kernel_w as u64;
            assert(ci * co <= ci * co * kh * kw + co || kh * kw == 0) by (nonlinear_arith)
                requires
                    ci >= 0,
                    co >= 0,
                    kh >= 0,
                    kw >= 0,
            ;
            assert(ci * co <= 2 * ci * co && ci * co * kh <= 2 * ci * co * kh) by (nonlinear_arith)
                requires
                    ci >= 0,
                    co >= 0,
                    kh >= 0,
            ;
            let flops: u64 = 2 * ci * co * kh * kw;
            let params: u64 = ci * co * kh * kw + co;
            (name.clone(), "Conv2d", flops, params)
        },
        LayerSpec::GruCell { name, input_size, hidden_size } => {
            let i = *input_size as u64;
            let h = *hidden_size as u64;
            assert(i + h <= 6 * (i + h) * h || h == 0) by (nonlinear_arith)
                requires
                    i >= 0,
                    h >= 0,
            ;
            assert(i + h <= 3 * (i + h + 2));
            let flops: u64 = 3 * 2 * (i + h) * h;
            let params: u64 = 3 * (i + h + 2) * h;
            (name.clone(), "GruCell", flops, params)
        },
    }
}

/// Estimate the FLOPs of a forward pass through `layers`, scaled by
/// `batch_size` (a batch size of zero counts as one).
///
/// Per-layer figures: `Linear` has `2·in·out (+ out with bias)` FLOPs and
/// `in·out (+ out)` parameters; `Conv2d` has `2·C_in·C_out·K_h·K_w` FLOPs and
/// `C_in·C_out·K_h·K_w + C_out` parameters; `GruCell` has `6·(in + hidden)·hidden`
/// FLOPs and `3·(in + hidden + 2)·hidden` parameters.
pub fn count_flops(layers: &[LayerSpec], batch_size: usize) -> (r: FlopsReport)
    requires
        count_flops_fits(layers@, batch_size),
    ensures
        r.layer_flops@.len() == layers@.len(),
        forall|i: int|
            0 <= i < layers@.len() ==> {
                let lf = #[trigger] r.layer_flops@[i];
                &&& lf.name@ == layer_name(layers@[i])@
                &&& lf.layer_type == layer_kind(layers@[i])
                &&& lf.flops == layer_flops(layers@[i])
                &&& lf.params == layer_params(layers@[i])
            },
        r.total_flops == total_flops_spec(layers@, batch_size),
        r.total_params == sum_params(layers@),
{
    let mut total_flops: u64 = 0;
    let mut total_params: u64 = 0;
    let mut layer_flops_out: Vec<LayerFlops> = Vec::new();
    let mut k: usize = 0;
    proof {
        lemma_sums_nonnegative(layers@);
        assert(sum_flops(layers@) <= total_flops_spec(layers@, batch_size)) by (nonlinear_arith)
            requires
                sum_flops(layers@) >= 0,
                effective_batch(batch_size) >= 1,
                total_flops_spec(layers@, batch_size) == sum_flops(layers@) * effective_batch(
                    batch_size,
                ),
        ;
    }
    while k < layers.len()
        invariant
            count_flops_fits(layers@, batch_size),
            sum_flops(layers@) <= u64::MAX,
            k <= layers@.len(),
            layer_flops_out@.len() == k,
            total_flops == sum_flops(layers@.take(k as int)),
            total_params == sum_params(layers@.take(k as int)),
            forall|i: int|
                0 <= i < k ==> {
                    let lf = #[trigger] layer_flops_out@[i];
                    &&& lf.name@ == layer_name(layers@[i])@
                    &&& lf.layer_type == layer_kind(layers@[i])
                    &&& lf.flops == layer_flops(layers@[i])
                    &&& lf.params == layer_params(layers@[i])
                },
        decreases layers.len() - k,
    {
        assert(layer_fits(layers@[k as int]));
        let (name, layer_type, flops, params) = layer_figures(&layers[k]);
        proof {
            assert(layers@.take(k + 1).drop_last() =~= layers@.take(k as int));
            assert(layers@.take(k + 1).last() == layers@[k as int]);
            lemma_sums_monotone(layers@, k + 1);
        }
        total_flops = total_flops + flops;
        total_params = total_params + params;
        layer_flops_out.push(LayerFlops { name, layer_type, flops, params });
        k = k + 1;
    }
    proof {
        assert(layers@.take(layers@.len() as int) =~= layers@);
    }
    let factor: u64 = if batch_size == 0 {
        1
    } else {
        batch_size as u64
    };
    assert(total_flops * factor == total_flops_spec(layers@, batch_size));
    FlopsReport { total_flops: total_flops * factor, total_params, layer_flops: layer_flops_out }
}

/// Total FLOPs scale linearly with the batch size: the report for any batch
/// size is the batch-size-one report multiplied by the effective batch size.
pub proof fn law_flops_scale_with_batch(layers: Seq<LayerSpec>, batch_size: usize)
    ensures
        total_flops_spec(layers, batch_size) == effective_batch(batch_size) * total_flops_spec(
            layers,
            1,
        ),
{
    assert(sum_flops(layers) * effective_batch(batch_size) == effective_batch(batch_size) * (
    sum_flops(layers) * 1)) by (nonlinear_arith);
}

/// A batch size of zero reports the same total FLOPs as a batch size of one.
pub proof fn law_zero_batch_counts_as_one(layers: Seq<LayerSpec>)
    ensures
        total_flops_spec(layers, 0) == total_flops_spec(layers, 1),
{
}

proof fn lemma_sums_additive(a: Seq<LayerSpec>, b: Seq<LayerSpec>)
    ensures
        sum_flops(a + b) == sum_flops(a) + sum_flops(b),
        sum_params(a + b) == sum_params(a) + sum_params(b),
    decreases b.len(),
{
    if b.len() == 0 {
        assert(a + b =~= a);
    } else {
        lemma_sums_additive(a, b.drop_last());
        assert((a + b).drop_last() =~= a + b.drop_last());
        assert((a + b).last() == b.last());
    }
}

/// The totals of a concatenated layer list are the sums of the totals of its
/// parts: FLOPs (at any batch size) and parameter counts are additive over layers.
pub proof fn law_totals_additive(a: Seq<LayerSpec>, b: Seq<LayerSpec>, batch_size: usize)
    ensures
        sum_params(a + b) == sum_params(a) + sum_params(b),
        total_flops_spec(a + b, batch_size) == total_flops_spec(a, batch_size) + total_flops_spec(
            b,
            batch_size,
        ),
{
    lemma_sums_additive(a, b);
    let e = effective_batch(batch_size);
    let (fa, fb) = (sum_flops(a), sum_flops(b));
    assert((fa + fb) * e == fa * e + fb * e) by (nonlinear_arith);
}


/// Each layer is counted by its weights and biases: a weight costs one
/// multiply and one add (two FLOPs) and a bias one add. A linear layer has
/// `in * out` weights and, with a bias, `out` biases. A convolution has
/// `C_in * C_out * K_h * K_w` weights, counted at one output position, and
/// `C_out` biases that add no FLOPs. A GRU cell's three gates each have
/// `(in + hidden) * hidden` weights and two bias vectors of `hidden`
/// entries, which add no FLOPs. Each layer keeps its name and reports the
/// kind it is.
pub proof fn law_layer_figures(l: LayerSpec)
    ensures
        l matches LayerSpec::Linear { name, in_features: i, out_features: o, bias } ==> {
            let b: int = if bias {
                o as int
            } else {
                0
            };
            &&& layer_params(l) == i * o + b
            &&& layer_flops(l) == 2 * (i * o) + b
            &&& layer_kind(l) == "Linear"
            &&& layer_name(l) == name
        },
        l matches LayerSpec::Conv2d {
            name,
            in_channels: ci,
            out_channels: co,
            kernel_h: kh,
            kernel_w: kw,
        } ==> {
            &&& layer_params(l) == ci * co * kh * kw + co
            &&& layer_flops(l) == 2 * (ci * co * kh * kw)
            &&& layer_kind(l) == "Conv2d"
            &&& layer_name(l) == name
        },
        l matches LayerSpec::GruCell { name, input_size: i, hidden_size: h } ==> {
            &&& layer_params(l) == 3 * ((i + h) * h) + 3 * (2 * h)
            &&& layer_flops(l) == 2 * (3 * ((i + h) * h))
            &&& layer_kind(l) == "GruCell"
            &&& layer_name(l) == name
        },
{
    match l {
        LayerSpec::Linear { in_features: i, out_features: o, .. } => {
            assert(2 * i * o == 2 * (i * o)) by (nonlinear_arith);
        },
        LayerSpec::Conv2d { in_channels: ci, out_channels: co, kernel_h: kh, kernel_w: kw, .. } => {
            assert(2 * ci * co * kh * kw == 2 * (ci * co * kh * kw)) by (nonlinear_arith);
        },
        LayerSpec::GruCell { input_size: i, hidden_size: h, .. } => {
            assert(6 * (i + h) * h == 2 * (3 * ((i + h) * h))) by (nonlinear_arith);
            assert(3 * (i + h + 2) * h == 3 * ((i + h) * h) + 3 * (2 * h)) by (nonlinear_arith);
        },
    }
}

/// The totals add up the layers: no layers count nothing, and appending a
/// layer adds its figures. A positive batch size multiplies the FLOPs total
/// by itself.
pub proof fn law_totals_sum_layers(layers: Seq<LayerSpec>, l: LayerSpec, batch_size: usize)
    ensures
        sum_flops(Seq::<LayerSpec>::empty()) == 0,
        sum_params(Seq::<LayerSpec>::empty()) == 0,
        sum_flops(layers.push(l)) == sum_flops(layers) + layer_flops(l),
        sum_params(layers.push(l)) == sum_params(layers) + layer_params(l),
        batch_size > 0 ==> total_flops_spec(layers, batch_size) == batch_size * sum_flops(layers),
        total_flops_spec(layers, 1) == sum_flops(layers),
{
    assert(layers.push(l).drop_last() =~= layers);
    assert(sum_flops(layers) * 1 == sum_flops(layers));
    if batch_size > 0 {
        assert(sum_flops(layers) * batch_size == batch_size * sum_flops(layers)) by (nonlinear_arith);
    }
}

} // verus!
