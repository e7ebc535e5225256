//! The trainable dentate-gyrus layer's configuration and parameter-shape
//! contract.
use vstd::prelude::*;

use crate::error::TrainError;
use crate::shapes::{shape_table_is, ParamShape};

verus! {

/// Validated hyperparameters of the dentate-gyrus layer (feed-forward
/// inhibition, EMA integration, then feedback inhibition).
#[derive(Clone, Debug, PartialEq)]
pub struct DgLayerConfig {
    /// Input oscillator count.
    pub n_input: usize,
    /// Number of feedback-inhibition winners.
    pub top_k: usize,
    /// Feed-forward inhibition delay.
    pub ffi_delay: usize,
    /// Feedback inhibition delay.
    pub fbi_delay: usize,
    /// EMA integration-step count.
    pub n_integration_steps: usize,
}

/// The result of validating dentate-gyrus hyperparameters.
pub open spec fn dg_layer_config_spec(
    n_input: usize,
    top_k: usize,
    ffi_delay: usize,
    fbi_delay: usize,
    n_integration_steps: usize,
) -> Result<DgLayerConfig, TrainError> {
    if n_input == 0 {
        Err(TrainError::EmptyBand { name: "input" })
    } else if top_k == 0 {
        Err(TrainError::InvalidTopK { k: top_k })
    } else if n_integration_steps == 0 {
        Err(TrainError::InvalidStepCount { name: "n_integration_steps", value: n_integration_steps })
    } else {
        Ok(DgLayerConfig { n_input, top_k, ffi_delay, fbi_delay, n_integration_steps })
    }
}

/// Parameter shapes of a dentate-gyrus layer: the scalar feed-forward
/// amplitude scale and the scalar feedback softmax temperature.
pub open spec fn dg_layer_shapes() -> Seq<(&'static str, Seq<usize>)> {
    seq![("ffi_scale", seq![1usize]), ("fbi_temperature", seq![1usize])]
}

impl DgLayerConfig {
    /// Construct with the default winner count (`8`), delays (`2`, `20`) and
    /// integration-step count (`5`).
    pub fn new(n_input: usize) -> (r: Result<Self, TrainError>)
        ensures
            r == dg_layer_config_spec(n_input, 8, 2, 20, 5),
    {
        Self::with_params(n_input, 8, 2, 20, 5)
    }

    /// Construct with explicit hyperparameters: zero inputs, a zero winner
    /// count or a zero integration-step count are rejected, in that order.
    pub fn with_params(
        n_input: usize,
        top_k: usize,
        ffi_delay: usize,
        fbi_delay: usize,
        n_integration_steps: usize,
    ) -> (r: Result<Self, TrainError>)
        ensures
            r == dg_layer_config_spec(n_input, top_k, ffi_delay, fbi_delay, n_integration_steps),
    {
        if n_input == 0 {
            return Err(TrainError::EmptyBand { name: "input" });
        }
        if top_k == 0 {
            return Err(TrainError::InvalidTopK { k: top_k });
        }
        if n_integration_steps == 0 {
            return Err(
                TrainError::InvalidStepCount {
                    name: "n_integration_steps",
                    value: n_integration_steps,
                },
            );
        }
        Ok(DgLayerConfig { n_input, top_k, ffi_delay, fbi_delay, n_integration_steps })
    }

    /// The number of winners a layer of this configuration keeps: the
    /// configured count, capped at the input count.
    pub fn effective_top_k(&self) -> (k: usize)
        ensures
            k == (if self.top_k < self.n_input {
                self.top_k
            } else {
                self.n_input
            }),
            k <= self.n_input,
    {
        if self.top_k < self.n_input {
            self.top_k
        } else {
            self.n_input
        }
    }

    /// The scalar parameter shapes a layer is built from, in the order they
    /// are checked.
    pub fn param_shapes(&self) -> (r: Vec<ParamShape>)
        ensures
            shape_table_is(r@, dg_layer_shapes()),
    {
        let r = vec![
            ParamShape { name: "ffi_scale", dims: vec![1] },
            ParamShape { name: "fbi_temperature", dims: vec![1] },
        ];
        assert(r@[0].dims@ =~= seq![1usize]);
        assert(r@[1].dims@ =~= seq![1usize]);
        r
    }
}


/// A dentate-gyrus layer learns exactly two scalars, each a one-element
/// tensor: the feed-forward amplitude scale, then the feedback softmax
/// temperature.
pub proof fn law_dg_layer_shapes()
    ensures
        ({
            let t = dg_layer_shapes();
            &&& t.len() == 2
            &&& t[0].0 == "ffi_scale" && t[1].0 == "fbi_temperature"
            &&& t[0].1 == seq![1usize] && t[1].1 == seq![1usize]
        }),
{
}

/// The dentate-gyrus layer accepts exactly a positive input count, a
/// positive winner count and a positive integration-step count, and then
/// keeps every setting as given; a zero input count is reported first (as
/// `"input"`), then a zero winner count, then a zero step count.
pub proof fn law_dg_layer_config(n: usize, k: usize, ffi: usize, fbi: usize, steps: usize)
    ensures
        dg_layer_config_spec(n, k, ffi, fbi, steps) is Ok <==> (n > 0 && k > 0 && steps > 0),
        dg_layer_config_spec(n, k, ffi, fbi, steps) matches Ok(cfg) ==> cfg.n_input == n
            && cfg.top_k == k && cfg.ffi_delay == ffi && cfg.fbi_delay == fbi
            && cfg.n_integration_steps == steps,
        n == 0 ==> dg_layer_config_spec(n, k, ffi, fbi, steps) == Err::<DgLayerConfig, TrainError>(
            TrainError::EmptyBand { name: "input" },
        ),
        n > 0 && k == 0 ==> dg_layer_config_spec(n, k, ffi, fbi, steps) == Err::<
            DgLayerConfig,
            TrainError,
        >(TrainError::InvalidTopK { k: 0 }),
        n > 0 && k > 0 && steps == 0 ==> dg_layer_config_spec(n, k, ffi, fbi, steps) == Err::<
            DgLayerConfig,
            TrainError,
        >(TrainError::InvalidStepCount { name: "n_integration_steps", value: 0 }),
{
}

} // verus!
