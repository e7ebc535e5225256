//! Feedback inhibition (top-`k` winner-take-all): how many winners survive.
use vstd::prelude::*;

use crate::error::TrainError;

verus! {

/// The number of winners kept among `n` oscillators: the requested count
/// when one is given, otherwise the sparsity share `floor(n * sparsity)`
/// raised to at least one; either way capped at `n`.
///
/// `sparsity_share` is `floor(n * sparsity)`, computed by the caller.
pub fn winner_count(requested: Option<usize>, sparsity_share: usize, n: usize) -> (k: usize)
    ensures
        k == ({
            let want: int = match requested {
                Some(r) => r as int,
                None => if sparsity_share < 1 {
                    1
                } else {
                    sparsity_share as int
                },
            };
            if want < n {
                want
            } else {
                n as int
            }
        }),
        k <= n,
        requested is None && n >= 1 ==> k >= 1,
        (requested matches Some(r) && r >= 1) && n >= 1 ==> k >= 1,
{
    let want = match requested {
        Some(r) => r,
        None => if sparsity_share < 1 {
            1
        } else {
            sparsity_share
        },
    };
    if want < n {
        want
    } else {
        n
    }
}

/// Check a feedback-inhibition population: at least one oscillator
/// (`"oscillators"`), and an explicit winner count, when given, of at least one.
pub fn validate_inhibition_counts(n_oscillators: usize, k: Option<usize>) -> (r: Result<
    (),
    TrainError,
>)
    ensures
        r == (if n_oscillators == 0 {
            Err(TrainError::EmptyBand { name: "oscillators" })
        } else if k == Some(0usize) {
            Err(TrainError::InvalidTopK { k: 0 })
        } else {
            Ok(())
        }),
{
    if n_oscillators == 0 {
        return Err(TrainError::EmptyBand { name: "oscillators" });
    }
    if let Some(k) = k {
        if k < 1 {
            return Err(TrainError::InvalidTopK { k });
        }
    }
    Ok(())
}

} // verus!
