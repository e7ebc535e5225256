//! The single-layer extended-Kuramoto resonance layer: size rule and the
//! parameter-shape contract of its learnable tensors.
use vstd::prelude::*;

use crate::error::TrainError;
use crate::shapes::{shape_table_is, ParamShape};

verus! {

/// Check that a population has at least one oscillator
/// ([`TrainError::EmptyBand`] named `"oscillators"`).
pub fn validate_oscillator_count(n_oscillators: usize) -> (r: Result<(), TrainError>)
    ensures
        r == (if n_oscillators == 0 {
            Err(TrainError::EmptyBand { name: "oscillators" })
        } else {
            Ok(())
        }),
{
    if n_oscillators == 0 {
        return Err(TrainError::EmptyBand { name: "oscillators" });
    }
    Ok(())
}

/// Check a resonance layer's sizes: at least one oscillator
/// (`"oscillators"`) and a positive input width (`"dims"`).
pub fn validate_resonance_sizes(n_oscillators: usize, n_dims: usize) -> (r: Result<
    (),
    TrainError,
>)
    ensures
        r == (if n_oscillators == 0 {
            Err(TrainError::EmptyBand { name: "oscillators" })
        } else if n_dims == 0 {
            Err(TrainError::EmptyBand { name: "dims" })
        } else {
            Ok(())
        }),
{
    if n_oscillators == 0 {
        return Err(TrainError::EmptyBand { name: "oscillators" });
    }
    if n_dims == 0 {
        return Err(TrainError::EmptyBand { name: "dims" });
    }
    Ok(())
}

/// Parameter shapes of a resonance layer with `n` oscillators over `d`
/// input features, in the order they are checked: coupling `[n, n]`, decay
/// `[n]`, input projection `[d, n]`, frequency modulation `[n, n]` and base
/// frequency `[n]`.
pub open spec fn resonance_shapes(n: usize, d: usize) -> Seq<(&'static str, Seq<usize>)> {
    seq![
        ("coupling", seq![n, n]),
        ("decay", seq![n]),
        ("input_proj", seq![d, n]),
        ("modulation", seq![n, n]),
        ("base_frequency", seq![n]),
    ]
}

/// The parameter shapes a resonance layer is built from, in the order they
/// are checked.
pub fn resonance_param_shapes(n_oscillators: usize, n_dims: usize) -> (r: Vec<ParamShape>)
    ensures
        shape_table_is(r@, resonance_shapes(n_oscillators, n_dims)),
{
    let (n, d) = (n_oscillators, n_dims);
    let r = vec![
        ParamShape { name: "coupling", dims: vec![n, n] },
        ParamShape { name: "decay", dims: vec![n] },
        ParamShape { name: "input_proj", dims: vec![d, n] },
        ParamShape { name: "modulation", dims: vec![n, n] },
        ParamShape { name: "base_frequency", dims: vec![n] },
    ];
    assert(r@[0].dims@ =~= seq![n, n]);
    assert(r@[1].dims@ =~= seq![n]);
    assert(r@[2].dims@ =~= seq![d, n]);
    assert(r@[3].dims@ =~= seq![n, n]);
    assert(r@[4].dims@ =~= seq![n]);
    r
}


/// A resonance layer's tensors are sized by its oscillator count `n` and
/// input width `d`: the coupling and frequency-modulation matrices are
/// `n x n`, the decay rates and base frequencies have one entry per
/// oscillator, and the input projection maps `d` features to `n`
/// oscillators (`[d, n]`).
pub proof fn law_resonance_shapes(n: usize, d: usize)
    ensures
        ({
            let t = resonance_shapes(n, d);
            &&& t.len() == 5
            &&& t[0].0 == "coupling" && t[1].0 == "decay" && t[2].0 == "input_proj"
            &&& t[3].0 == "modulation" && t[4].0 == "base_frequency"
            &&& t[1].1 == seq![n] && t[4].1 == t[1].1
            &&& t[0].1 == seq![n, n] && t[3].1 == t[0].1
            &&& t[2].1.len() == 2 && t[2].1[0] == d && t[2].1[1] == n
        }),
{
}

} // verus!
