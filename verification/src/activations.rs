//! The gated phase activation's configuration and parameter-shape contract.
use vstd::prelude::*;

use crate::error::TrainError;
use crate::shapes::{shape_table_is, ParamShape};

verus! {

/// Validated hyperparameters of the gated phase activation
/// `y = sigmoid(w_g * z + b_g) * phase_activation(z)`.
#[derive(Clone, Debug, PartialEq)]
pub struct GatedPhaseActivationConfig {
    /// Input/output feature dimension.
    pub n_dims: usize,
}

/// Parameter shapes of a gated phase activation over `n_dims` features:
/// the per-feature gate weight and gate bias.
pub open spec fn gated_phase_activation_shapes(n_dims: usize) -> Seq<(&'static str, Seq<usize>)> {
    seq![("gate_weight", seq![n_dims]), ("gate_bias", seq![n_dims])]
}

impl GatedPhaseActivationConfig {
    /// A validated configuration; zero dimensions are an
    /// [`TrainError::EmptyBand`] named `"dims"`.
    pub fn new(n_dims: usize) -> (r: Result<Self, TrainError>)
        ensures
            r == (if n_dims == 0 {
                Err(TrainError::EmptyBand { name: "dims" })
            } else {
                Ok(GatedPhaseActivationConfig { n_dims })
            }),
    {
        if n_dims == 0 {
            return Err(TrainError::EmptyBand { name: "dims" });
        }
        Ok(GatedPhaseActivationConfig { n_dims })
    }

    /// The parameter shapes an activation of this configuration is built
    /// from, in the order they are checked.
    pub fn param_shapes(&self) -> (r: Vec<ParamShape>)
        ensures
            shape_table_is(r@, gated_phase_activation_shapes(self.n_dims)),
    {
        let n = self.n_dims;
        let r = vec![
            ParamShape { name: "gate_weight", dims: vec![n] },
            ParamShape { name: "gate_bias", dims: vec![n] },
        ];
        assert(r@[0].dims@ =~= seq![n]);
        assert(r@[1].dims@ =~= seq![n]);
        r
    }
}

/// A gated phase activation has one gate weight and one gate bias per
/// input feature.
pub proof fn law_gated_activation_shapes(n_dims: usize)
    ensures
        ({
            let t = gated_phase_activation_shapes(n_dims);
            &&& t.len() == 2
            &&& t[0].0 == "gate_weight" && t[1].0 == "gate_bias"
            &&& t[0].1 == seq![n_dims] && t[1].1 == t[0].1
        }),
{
}

} // verus!
