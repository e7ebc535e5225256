//! The hybrid attention/oscillator classifier: its size rules.
use vstd::prelude::*;

use crate::error::TrainError;

verus! {

/// The outcome of the classifier's count checks, in the order they are made.
pub open spec fn hybrid_counts_spec(n_input: usize, n_classes: usize, n_layers: usize) -> Result<
    (),
    TrainError,
> {
    if n_input == 0 {
        Err(TrainError::EmptyBand { name: "n_input" })
    } else if n_classes == 0 {
        Err(TrainError::EmptyBand { name: "n_classes" })
    } else if n_layers == 0 {
        Err(TrainError::EmptyBand { name: "n_layers" })
    } else {
        Ok(())
    }
}

/// Check that the input width, the class count and the number of
/// attention/feed-forward blocks are all positive
/// ([`TrainError::EmptyBand`], checked in that order).
pub fn validate_hybrid_counts(n_input: usize, n_classes: usize, n_layers: usize) -> (r: Result<
    (),
    TrainError,
>)
    ensures
        r == hybrid_counts_spec(n_input, n_classes, n_layers),
{
    if n_input == 0 {
        return Err(TrainError::EmptyBand { name: "n_input" });
    }
    if n_classes == 0 {
        return Err(TrainError::EmptyBand { name: "n_classes" });
    }
    if n_layers == 0 {
        return Err(TrainError::EmptyBand { name: "n_layers" });
    }
    Ok(())
}

/// Check that each block runs at least one discrete oscillator step
/// ([`TrainError::InvalidStepCount`]).
pub fn validate_discrete_steps(n_discrete_steps: usize) -> (r: Result<(), TrainError>)
    ensures
        r == (if n_discrete_steps == 0 {
            Err(TrainError::InvalidStepCount { name: "n_discrete_steps", value: n_discrete_steps })
        } else {
            Ok(())
        }),
{
    if n_discrete_steps == 0 {
        return Err(
            TrainError::InvalidStepCount { name: "n_discrete_steps", value: n_discrete_steps },
        );
    }
    Ok(())
}

/// The classifier accepts exactly positive input, class and block counts;
/// the first zero, in that order, is reported by its name.
pub proof fn law_hybrid_counts(n_input: usize, n_classes: usize, n_layers: usize)
    ensures
        hybrid_counts_spec(n_input, n_classes, n_layers) is Ok <==> (n_input > 0 && n_classes > 0
            && n_layers > 0),
        n_input == 0 ==> hybrid_counts_spec(n_input, n_classes, n_layers) == Err::<(), TrainError>(
            TrainError::EmptyBand { name: "n_input" },
        ),
        n_input > 0 && n_classes == 0 ==> hybrid_counts_spec(n_input, n_classes, n_layers) == Err::<
            (),
            TrainError,
        >(TrainError::EmptyBand { name: "n_classes" }),
        n_input > 0 && n_classes > 0 && n_layers == 0 ==> hybrid_counts_spec(
            n_input,
            n_classes,
            n_layers,
        ) == Err::<(), TrainError>(TrainError::EmptyBand { name: "n_layers" }),
{
}

} // verus!
