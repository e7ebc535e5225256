//! Resonance-induced plasticity: the shape contract of the Hebbian coupling
//! update.
use vstd::prelude::*;

use crate::error::TrainError;
use crate::shapes::{check_dims, is_shape_mismatch};

verus! {

/// Check the inputs of a Hebbian update over `n` oscillators.
///
/// The coupling matrix must be `[n, n]`, the phase `[batch, n]` where
/// `batch` is its own row count, and the amplitude must have the phase's
/// shape. The first failing check is reported.
pub fn check_hebbian_shapes(n: usize, coupling: &[usize], phase: &[usize], amplitude: &[usize]) -> (r:
    Result<(), TrainError>)
    requires
        phase@.len() == 2,
    ensures
        r is Ok <==> (coupling@ == seq![n, n] && phase@[1] == n && amplitude@ == phase@),
        r matches Err(e) ==> if coupling@ != seq![n, n] {
            is_shape_mismatch(e, "coupling", seq![n, n], coupling@)
        } else if phase@[1] != n {
            is_shape_mismatch(e, "phase", seq![phase@[0], n], phase@)
        } else {
            is_shape_mismatch(e, "amplitude", phase@, amplitude@)
        },
{
    let square = [n, n];
    check_dims("coupling", coupling, &square)?;
    let rows = [phase[0], n];
    proof {
        if phase@[1] == n {
            assert(phase@ =~= rows@);
        }
    }
    check_dims("phase", phase, &rows)?;
    check_dims("amplitude", amplitude, phase)?;
    Ok(())
}

} // verus!
