//! Holomorphic equilibrium propagation: the step-count rule of its free and
//! nudged relaxation phases.
use vstd::prelude::*;

use crate::error::TrainError;

verus! {

/// Check the relaxation step counts: at least one free step, then at least
/// one nudged step ([`TrainError::InvalidStepCount`]).
pub fn validate_ep_steps(free_steps: usize, nudge_steps: usize) -> (r: Result<(), TrainError>)
    ensures
        r == (if free_steps < 1 {
            Err(TrainError::InvalidStepCount { name: "free_steps", value: free_steps })
        } else if nudge_steps < 1 {
            Err(TrainError::InvalidStepCount { name: "nudge_steps", value: nudge_steps })
        } else {
            Ok(())
        }),
{
    if free_steps < 1 {
        return Err(TrainError::InvalidStepCount { name: "free_steps", value: free_steps });
    }
    if nudge_steps < 1 {
        return Err(TrainError::InvalidStepCount { name: "nudge_steps", value: nudge_steps });
    }
    Ok(())
}

} // verus!
