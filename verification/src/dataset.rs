//! The synthetic multi-object tracking dataset's size rules.
use vstd::prelude::*;

use crate::error::TrainError;

verus! {

/// Check a synthetic sequence's sizes: at least one object and one frame,
/// and detections of at least two features (the x/y position).
pub fn validate_sequence_dims(n_objects: usize, n_frames: usize, det_dim: usize) -> (r: Result<
    (),
    TrainError,
>)
    ensures
        r == (if n_objects == 0 {
            Err(TrainError::EmptyBand { name: "n_objects" })
        } else if n_frames == 0 {
            Err(TrainError::EmptyBand { name: "n_frames" })
        } else if det_dim < 2 {
            Err(TrainError::InvalidStepCount { name: "det_dim", value: det_dim })
        } else {
            Ok(())
        }),
{
    if n_objects == 0 {
        return Err(TrainError::EmptyBand { name: "n_objects" });
    }
    if n_frames == 0 {
        return Err(TrainError::EmptyBand { name: "n_frames" });
    }
    if det_dim < 2 {
        return Err(TrainError::InvalidStepCount { name: "det_dim", value: det_dim });
    }
    Ok(())
}

/// The two objects whose appearance features trade places in an
/// identity-swap frame, for `n >= 2` objects.
///
/// With more than two objects, the first two slots of a partial
/// Fisher–Yates shuffle of `0..n` are drawn: `draws[0]` is uniform in
/// `0..n` and `draws[1]` uniform in `0..n-1`, and slot `k` is swapped with
/// slot `k + draws[k]`. With exactly two objects the pair is `(0, 1)`.
pub fn pick_swap_pair(n: usize, draws: [usize; 2]) -> (r: (usize, usize))
    requires
        n >= 2,
        n > 2 ==> draws@[0] < n && draws@[1] < n - 1,
    ensures
        n == 2 ==> r == (0usize, 1usize),
        n > 2 ==> r.0 == draws@[0] && r.1 == (if draws@[1] + 1 == draws@[0] {
            0
        } else {
            draws@[1] + 1
        }),
        r.0 < n && r.1 < n && r.0 != r.1,
{
    if n == 2 {
        return (0, 1);
    }
    let mut idxs: Vec<usize> = Vec::new();
    let mut v: usize = 0;
    while v < n
        invariant
            v <= n,
            idxs@.len() == v,
            forall|t: int| 0 <= t < v ==> idxs@[t] == t,
        decreases n - v,
    {
        idxs.push(v);
        v = v + 1;
    }
    let mut k: usize = 0;
    while k < 2
        invariant
            n > 2,
            draws@[0] < n && draws@[1] < n - 1,
            k <= 2,
            idxs@.len() == n,
            k >= 1 ==> idxs@[0] == draws@[0],
            k == 1 ==> forall|t: int|
                1 <= t < n ==> idxs@[t] == (if t == draws@[0] {
                    0
                } else {
                    t
                }),
            k >= 2 ==> idxs@[1] == (if draws@[1] + 1 == draws@[0] {
                0
            } else {
                draws@[1] + 1
            }),
            k == 0 ==> forall|t: int| 0 <= t < n ==> idxs@[t] == t,
        decreases 2 - k,
    {
        let r = k + draws[k];
        let a = idxs[k];
        let b = idxs[r];
        idxs.set(k, b);
        idxs.set(r, a);
        k = k + 1;
    }
    (idxs[0], idxs[1])
}

} // verus!
