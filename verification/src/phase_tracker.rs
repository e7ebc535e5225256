//! The phase-based multi-object tracker's size rules and the identity
//! bookkeeping of sequence tracking.
use vstd::prelude::*;

use crate::bands::{band_sizes_spec, validate_band_sizes};
use crate::error::TrainError;

verus! {

/// The outcome of the tracker's size checks, in the order they are made.
pub open spec fn tracker_dims_spec(
    detection_dim: usize,
    n_delta: usize,
    n_theta: usize,
    n_gamma: usize,
    n_discrete_steps: usize,
) -> Result<(), TrainError> {
    if detection_dim == 0 {
        Err(TrainError::EmptyBand { name: "detection_dim" })
    } else if band_sizes_spec(n_delta, n_theta, n_gamma) is Err {
        band_sizes_spec(n_delta, n_theta, n_gamma)
    } else if n_discrete_steps == 0 {
        Err(TrainError::InvalidStepCount { name: "n_discrete_steps", value: n_discrete_steps })
    } else {
        Ok(())
    }
}

/// Check a tracker's sizes: a positive detection width, non-empty bands, and
/// at least one discrete integration step.
pub fn validate_tracker_dims(
    detection_dim: usize,
    n_delta: usize,
    n_theta: usize,
    n_gamma: usize,
    n_discrete_steps: usize,
) -> (r: Result<(), TrainError>)
    ensures
        r == tracker_dims_spec(detection_dim, n_delta, n_theta, n_gamma, n_discrete_steps),
{
    if detection_dim == 0 {
        return Err(TrainError::EmptyBand { name: "detection_dim" });
    }
    validate_band_sizes(n_delta, n_theta, n_gamma)?;
    if n_discrete_steps == 0 {
        return Err(
            TrainError::InvalidStepCount { name: "n_discrete_steps", value: n_discrete_steps },
        );
    }
    Ok(())
}

/// Number of matched entries (non-negative match targets) of a frame's
/// match list.
pub open spec fn matched_count(matches: Seq<i64>) -> nat
    decreases matches.len(),
{
    if matches.len() == 0 {
        0
    } else {
        matched_count(matches.drop_last()) + if matches.last() >= 0 {
            1nat
        } else {
            0
        }
    }
}

/// Number of entries of a match list that name a match (`>= 0`; unmatched
/// entries are `-1`).
pub fn count_matched(matches: &[i64]) -> (r: usize)
    ensures
        r == matched_count(matches@),
        r <= matches@.len(),
{
    let mut count: usize = 0;
    let mut i: usize = 0;
    while i < matches.len()
        invariant
            i <= matches@.len(),
            count == matched_count(matches@.take(i as int)),
            count <= i,
        decreases matches.len() - i,
    {
        proof {
            assert(matches@.take(i + 1).drop_last() =~= matches@.take(i as int));
        }
        if matches[i] >= 0 {
            count = count + 1;
        }
        i = i + 1;
    }
    proof {
        assert(matches@.take(matches@.len() as int) =~= matches@);
    }
    count
}

/// `matches` assigns each of the `n_prev` previous objects either no current
/// object (`-1`) or a current object below `n_curr`, no current object
/// being assigned twice.
pub open spec fn is_matching(matches: Seq<i64>, n_prev: nat, n_curr: nat) -> bool {
    &&& matches.len() == n_prev
    &&& forall|i: int| 0 <= i < matches.len() ==> -1 <= #[trigger] matches[i] < n_curr
    &&& forall|i: int, j: int|
        0 <= i < j < matches.len() && #[trigger] matches[i] >= 0 ==> matches[i]
            != #[trigger] matches[j]
}

/// The assigned current objects of a match list, in order.
pub open spec fn matched_targets(matches: Seq<i64>) -> Seq<i64>
    decreases matches.len(),
{
    if matches.len() == 0 {
        Seq::empty()
    } else {
        matched_targets(matches.drop_last()) + if matches.last() >= 0 {
            seq![matches.last()]
        } else {
            Seq::empty()
        }
    }
}

/// Some previous object is assigned the current object `x`.
spec fn is_assigned(matches: Seq<i64>, x: i64) -> bool {
    x >= 0 && exists|i: int| 0 <= i < matches.len() && matches[i] == x
}

proof fn lemma_matched_targets(matches: Seq<i64>, n_curr: nat)
    requires
        forall|i: int| 0 <= i < matches.len() ==> -1 <= #[trigger] matches[i] < n_curr,
        forall|i: int, j: int|
            0 <= i < j < matches.len() && #[trigger] matches[i] >= 0 ==> matches[i]
                != #[trigger] matches[j],
    ensures
        matched_targets(matches).len() == matched_count(matches),
        matched_targets(matches).no_duplicates(),
        forall|k: int|
            0 <= k < matched_targets(matches).len() ==> is_assigned(
                matches,
                #[trigger] matched_targets(matches)[k],
            ),
    decreases matches.len(),
{
    if matches.len() > 0 {
        let init = matches.drop_last();
        lemma_matched_targets(init, n_curr);
        let prev = matched_targets(init);
        let last_i = matches.len() - 1;
        assert forall|k: int| 0 <= k < prev.len() implies prev[k] != matches.last()
            || matches.last() < 0 by {
            assert(is_assigned(init, prev[k]));
            let i = choose|i: int| 0 <= i < init.len() && init[i] == prev[k];
            assert(matches[i] == init[i]);
            assert(matches[i] >= 0 ==> matches[i] != matches[last_i]);
        }
        let cur = matched_targets(matches);
        assert forall|k: int| 0 <= k < cur.len() implies is_assigned(matches, #[trigger] cur[k]) by {
            if k < prev.len() {
                assert(is_assigned(init, prev[k]));
                let i = choose|i: int| 0 <= i < init.len() && init[i] == prev[k];
                assert(matches[i] == init[i]);
            } else {
                assert(matches[last_i] == cur[k]);
            }
        }
    }
}

/// A frame's match count never exceeds the smaller of the two frames'
/// object counts, so the identity-preservation ratio of a sequence stays
/// within `[0, 1]`.
pub proof fn law_matches_at_most_possible(matches: Seq<i64>, n_prev: nat, n_curr: nat)
    requires
        is_matching(matches, n_prev, n_curr),
    ensures
        matched_count(matches) <= n_prev,
        matched_count(matches) <= n_curr,
{
    lemma_matched_count_at_most_len(matches);
    lemma_matched_targets(matches, n_curr);
    let t = matched_targets(matches);
    let ti = Seq::new(t.len(), |k: int| t[k] as int);
    assert(ti.no_duplicates());
    ti.unique_seq_to_set();
    vstd::set_lib::lemma_int_range(0, n_curr as int);
    let range = vstd::set_lib::set_int_range(0, n_curr as int);
    assert forall|x: int| ti.to_set().contains(x) implies range.contains(x) by {
        let k = choose|k: int| 0 <= k < ti.len() && ti[k] == x;
        assert(is_assigned(matches, t[k]));
        let i = choose|i: int| 0 <= i < matches.len() && matches[i] == t[k];
        assert(-1 <= matches[i] < n_curr);
    }
    assert(ti.to_set().subset_of(range));
    vstd::set_lib::lemma_len_subset(ti.to_set(), range);
}

proof fn lemma_matched_count_at_most_len(matches: Seq<i64>)
    ensures
        matched_count(matches) <= matches.len(),
    decreases matches.len(),
{
    if matches.len() > 0 {
        lemma_matched_count_at_most_len(matches.drop_last());
    }
}

/// Running identity-preservation counts over the frames of a sequence:
/// matches found and matches possible (the smaller of the two consecutive
/// frames' object counts).
#[derive(Clone, Copy, Debug, PartialEq, Eq)]
pub struct IdentityTally {
    /// Matches found so far.
    pub matched: usize,
    /// Matches possible so far.
    pub possible: usize,
}

impl IdentityTally {
    /// No frames recorded.
    pub fn new() -> (r: Self)
        ensures
            r.matched == 0 && r.possible == 0,
    {
        IdentityTally { matched: 0, possible: 0 }
    }

    /// Record one frame transition: `matches` is the greedy assignment of
    /// the `n_prev` previous objects to the `n_curr` current ones.
    pub fn record_frame(&mut self, matches: &[i64], n_prev: usize, n_curr: usize)
        requires
            old(self).matched + matches@.len() <= usize::MAX,
            old(self).possible + (if n_prev < n_curr {
                n_prev
            } else {
                n_curr
            }) <= usize::MAX,
        ensures
            final(self).matched == old(self).matched + matched_count(matches@),
            old(self).matched <= old(self).possible && is_matching(
                matches@,
                n_prev as nat,
                n_curr as nat,
            ) ==> final(self).matched <= final(self).possible,
            final(self).possible == old(self).possible + (if n_prev < n_curr {
                n_prev
            } else {
                n_curr
            }),
    {
        let found = count_matched(matches);
        proof {
            if is_matching(matches@, n_prev as nat, n_curr as nat) {
                law_matches_at_most_possible(matches@, n_prev as nat, n_curr as nat);
            }
        }
        let n_match = if n_prev < n_curr {
            n_prev
        } else {
            n_curr
        };
        self.matched = self.matched + found;
        self.possible = self.possible + n_match;
    }

    /// The denominator of the identity-preservation ratio
    /// `matched / max(possible, 1)`.
    pub fn denominator(&self) -> (r: usize)
        ensures
            r == (if self.possible == 0 {
                1
            } else {
                self.possible
            }),
    {
        if self.possible == 0 {
            1
        } else {
            self.possible
        }
    }
}

/// The `(previous, current)` object pairs a frame's match list names, in
/// order of the previous object: entry `i` with target `m >= 0` pairs
/// previous object `i` with current object `m`.
pub open spec fn matched_pairs_upto(matches: Seq<i64>, n: int) -> Seq<(usize, usize)>
    decreases n,
{
    if n <= 0 {
        Seq::empty()
    } else {
        matched_pairs_upto(matches, n - 1) + if matches[n - 1] >= 0 {
            seq![((n - 1) as usize, matches[n - 1] as usize)]
        } else {
            Seq::empty()
        }
    }
}

proof fn lemma_matched_pairs_len(matches: Seq<i64>, n: int)
    requires
        0 <= n <= matches.len(),
    ensures
        matched_pairs_upto(matches, n).len() == matched_count(matches.take(n)),
    decreases n,
{
    if n > 0 {
        lemma_matched_pairs_len(matches, n - 1);
        assert(matches.take(n).drop_last() =~= matches.take(n - 1));
    }
}

/// The matched `(previous, current)` object pairs of a frame's match list,
/// in order; there are as many as [`count_matched`] counts.
pub fn matched_pairs(matches: &[i64]) -> (r: Vec<(usize, usize)>)
    requires
        forall|i: int| 0 <= i < matches@.len() ==> #[trigger] matches@[i] <= usize::MAX,
    ensures
        r@ == matched_pairs_upto(matches@, matches@.len() as int),
        r@.len() == matched_count(matches@),
{
    let mut r: Vec<(usize, usize)> = Vec::new();
    let mut i: usize = 0;
    while i < matches.len()
        invariant
            i <= matches@.len(),
            forall|k: int| 0 <= k < matches@.len() ==> #[trigger] matches@[k] <= usize::MAX,
            r@ == matched_pairs_upto(matches@, i as int),
        decreases matches.len() - i,
    {
        let m = matches[i];
        if m >= 0 {
            r.push((i, m as usize));
        }
        proof {
            if m >= 0 {
                assert(r@ =~= matched_pairs_upto(matches@, i as int) + seq![(i, m as usize)]);
            } else {
                assert(r@ =~= matched_pairs_upto(matches@, i as int) + Seq::<(usize, usize)>::empty());
            }
        }
        i = i + 1;
    }
    proof {
        lemma_matched_pairs_len(matches@, matches@.len() as int);
        assert(matches@.take(matches@.len() as int) =~= matches@);
    }
    r
}

/// The tracker accepts exactly a positive detection width, non-empty bands
/// and at least one discrete step. A zero width is reported first, as
/// `"detection_dim"`; then band errors as the band rule reports them; then a
/// zero step count as `"n_discrete_steps"`.
pub proof fn law_tracker_dims(det: usize, nd: usize, nt: usize, ng: usize, steps: usize)
    ensures
        tracker_dims_spec(det, nd, nt, ng, steps) is Ok <==> (det > 0 && nd > 0 && nt > 0 && ng > 0
            && steps > 0),
        det == 0 ==> tracker_dims_spec(det, nd, nt, ng, steps) == Err::<(), TrainError>(
            TrainError::EmptyBand { name: "detection_dim" },
        ),
        det > 0 && band_sizes_spec(nd, nt, ng) is Err ==> tracker_dims_spec(det, nd, nt, ng, steps)
            == band_sizes_spec(nd, nt, ng),
        det > 0 && nd > 0 && nt > 0 && ng > 0 && steps == 0 ==> tracker_dims_spec(
            det,
            nd,
            nt,
            ng,
            steps,
        ) == Err::<(), TrainError>(TrainError::InvalidStepCount { name: "n_discrete_steps", value: 0 }),
{
    crate::bands::law_band_sizes(nd, nt, ng);
}

/// A match list counts its entries that name a current object (`>= 0`):
/// an empty list counts nothing, and appending an entry adds one exactly
/// when it names a match (`-1` marks an unmatched object).
pub proof fn law_matched_count(matches: Seq<i64>, m: i64)
    ensures
        matched_count(Seq::<i64>::empty()) == 0,
        matched_count(matches.push(m)) == matched_count(matches) + if m >= 0 {
            1int
        } else {
            0
        },
{
    assert(matches.push(m).drop_last() =~= matches);
}

} // verus!
