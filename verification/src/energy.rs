//! The holomorphic energy function's configuration and input-shape contract.
//!
//! The energy of complex oscillator states `z` (`[batch, n]`) under a real
//! coupling matrix `K` (`[n, n]`) is
//! `mean_batch(-sum_ij K[i,j] Re(conj(z_i) z_j) + sum_i (|z_i|^2 - 1)^2 + beta * task_loss)`.
use vstd::prelude::*;

use crate::error::TrainError;
use crate::shapes::{check_dims, is_shape_mismatch};

verus! {

/// Validated hyperparameters of the holomorphic energy.
#[derive(Clone, Debug, PartialEq)]
pub struct HolomorphicEnergyConfig {
    /// Number of complex oscillators.
    pub n_oscillators: usize,
}

/// Holomorphic energy function over a fixed number of complex oscillators.
#[derive(Debug, Clone, Copy, PartialEq)]
pub struct HolomorphicEnergy {
    n_oscillators: usize,
}

impl HolomorphicEnergyConfig {
    /// A validated configuration; zero oscillators are an
    /// [`TrainError::EmptyBand`] named `"oscillators"`.
    pub fn new(n_oscillators: usize) -> (r: Result<Self, TrainError>)
        ensures
            r == (if n_oscillators == 0 {
                Err(TrainError::EmptyBand { name: "oscillators" })
            } else {
                Ok(HolomorphicEnergyConfig { n_oscillators })
            }),
    {
        if n_oscillators == 0 {
            return Err(TrainError::EmptyBand { name: "oscillators" });
        }
        Ok(HolomorphicEnergyConfig { n_oscillators })
    }

    /// Build the energy function of this configuration.
    pub fn init(&self) -> (r: HolomorphicEnergy)
        ensures
            r.n_oscillators_spec() == self.n_oscillators,
    {
        HolomorphicEnergy { n_oscillators: self.n_oscillators }
    }
}

impl HolomorphicEnergy {
    /// The oscillator count of this energy function.
    pub closed spec fn n_oscillators_spec(&self) -> usize {
        self.n_oscillators
    }

    /// Number of complex oscillators.
    pub fn n_oscillators(&self) -> (r: usize)
        ensures
            r == self.n_oscillators_spec(),
    {
        self.n_oscillators
    }

    /// Check the dimensions of an energy evaluation's inputs and return the
    /// batch size.
    ///
    /// `coupling` must be `[n, n]`; the real and imaginary parts of `z` must
    /// both be `[batch, n]`, where `batch` is the real part's row count; the
    /// task loss, which only contributes when `beta != 0` (`task_applies`),
    /// must then be `[batch, 1]`. The first failing check is reported.
    pub fn check_input_shapes(
        &self,
        coupling: &[usize],
        re: &[usize],
        im: &[usize],
        task_loss: Option<&[usize]>,
        task_applies: bool,
    ) -> (r: Result<usize, TrainError>)
        requires
            re@.len() == 2,
        ensures
            ({
                let n = self.n_oscillators_spec();
                let batch = re@[0];
                let task_ok = match task_loss {
                    Some(t) => !task_applies || t@ == seq![batch, 1usize],
                    None => true,
                };
                &&& r is Ok <==> (coupling@ == seq![n, n] && re@ == seq![batch, n] && im@ == seq![
                    batch,
                    n,
                ] && task_ok)
                &&& r matches Ok(b) ==> b == batch
                &&& r matches Err(e) ==> if coupling@ != seq![n, n] {
                    is_shape_mismatch(e, "coupling", seq![n, n], coupling@)
                } else if re@ != seq![batch, n] {
                    is_shape_mismatch(e, "re", seq![batch, n], re@)
                } else if im@ != seq![batch, n] {
                    is_shape_mismatch(e, "im", seq![batch, n], im@)
                } else {
                    is_shape_mismatch(e, "task_loss", seq![batch, 1usize], task_loss.unwrap()@)
                }
            }),
    {
        let n = self.n_oscillators;
        let square = [n, n];
        check_dims("coupling", coupling, &square)?;
        let batch = re[0];
        let rows = [batch, n];
        check_dims("re", re, &rows)?;
        check_dims("im", im, &rows)?;
        if task_applies {
            if let Some(t) = task_loss {
                let column = [batch, 1];
                check_dims("task_loss", t, &column)?;
            }
        }
        Ok(batch)
    }
}

} // verus!
