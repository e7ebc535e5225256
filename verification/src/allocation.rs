//! Adaptive oscillator allocation: the integer rules that turn a total
//! oscillator budget into delta/theta/gamma band sizes.
//!
//! The rule-based strategy rounds `total * ratio` per band (half to even);
//! the learned strategy splits the total by softmax fractions with a
//! largest-remainder correction. The rounding and the fractions are
//! floating-point; what is stated here is what happens to the rounded
//! integers and to the ordering of the remainders.
use vstd::prelude::*;

use crate::error::TrainError;

verus! {

/// How the allocator chooses band sizes.
#[derive(Debug, Clone, Copy, PartialEq, Eq, Structural)]
pub enum AllocatorStrategy {
    /// Fixed delta/theta ratios of the total, the rest to gamma.
    Rule,
    /// Softmax fractions from a small MLP over scene features.
    Learned,
}

/// Check an allocator's total-oscillator range: at least three oscillators
/// (one per band) and `max_total >= min_total`.
pub fn validate_allocator_range(min_total: usize, max_total: usize) -> (r: Result<(), TrainError>)
    ensures
        r == (if min_total < 3 || max_total < min_total {
            Err(TrainError::InvalidAllocatorRange { min_total, max_total })
        } else {
            Ok(())
        }),
{
    if min_total < 3 || max_total < min_total {
        return Err(TrainError::InvalidAllocatorRange { min_total, max_total });
    }
    Ok(())
}

/// `max(v, lo)`.
pub open spec fn at_least(v: int, lo: int) -> int {
    if v < lo {
        lo
    } else {
        v
    }
}

/// The rule strategy's band sizes from the rounded total and the rounded
/// delta and theta shares: the total is floored at zero, delta and theta at
/// one, and gamma takes the remainder, floored at one.
pub open spec fn rule_counts_spec(total: int, delta: int, theta: int) -> (int, int, int) {
    let t = at_least(total, 0);
    let d = at_least(delta, 1);
    let th = at_least(theta, 1);
    (d, th, at_least(t - d - th, 1))
}

/// The rule strategy's band sizes `(n_delta, n_theta, n_gamma)` from the
/// rounded total `round(min + c * (max - min))` and the rounded shares
/// `round(total * delta_ratio)`, `round(total * theta_ratio)`.
///
/// Every band gets at least one oscillator; when the shares leave room,
/// the three sizes add up to the (non-negative) total.
pub fn rule_band_counts(total_rounded: i64, delta_rounded: i64, theta_rounded: i64) -> (r: (
    usize,
    usize,
    usize,
))
    requires
        at_least(total_rounded as int, 0) - at_least(delta_rounded as int, 1) - at_least(
            theta_rounded as int,
            1,
        ) >= i64::MIN,
        delta_rounded <= usize::MAX,
        theta_rounded <= usize::MAX,
        total_rounded <= usize::MAX,
    ensures
        (r.0 as int, r.1 as int, r.2 as int) == rule_counts_spec(
            total_rounded as int,
            delta_rounded as int,
            theta_rounded as int,
        ),
        r.0 >= 1 && r.1 >= 1 && r.2 >= 1,
        r.0 + r.1 + 1 <= at_least(total_rounded as int, 0) ==> r.0 + r.1 + r.2 == at_least(
            total_rounded as int,
            0,
        ),
{
    let total: i64 = if total_rounded < 0 {
        0
    } else {
        total_rounded
    };
    let n_delta: i64 = if delta_rounded < 1 {
        1
    } else {
        delta_rounded
    };
    let n_theta: i64 = if theta_rounded < 1 {
        1
    } else {
        theta_rounded
    };
    let rest: i64 = total - n_delta - n_theta;
    let n_gamma: i64 = if rest < 1 {
        1
    } else {
        rest
    };
    (n_delta as usize, n_theta as usize, n_gamma as usize)
}

/// Whether band `i` is among the first `m` entries of `order`.
pub open spec fn in_first(order: Seq<usize>, m: int, i: int) -> bool {
    exists|p: int| 0 <= p < m && p < order.len() && order[p] == i
}

/// `order` lists each band index `0`, `1`, `2` exactly once.
pub open spec fn is_band_order(order: Seq<usize>) -> bool {
    &&& order.len() == 3
    &&& forall|p: int| 0 <= p < 3 ==> #[trigger] order[p] < 3
    &&& order[0] != order[1] && order[0] != order[2] && order[1] != order[2]
}

/// The number of bands that receive one extra oscillator: the shortfall of
/// the floors against the total, at most three, and none when there is no
/// shortfall.
pub open spec fn bonus_count(total: int, floors: Seq<i64>) -> int {
    let deficit = total - (floors[0] + floors[1] + floors[2]);
    if deficit <= 0 {
        0
    } else if deficit > 3 {
        3
    } else {
        deficit
    }
}

/// Band `i`'s size after the largest-remainder correction, before the
/// floor of one.
pub open spec fn corrected_floor(total: int, floors: Seq<i64>, order: Seq<usize>, i: int) -> int {
    floors[i] + if in_first(order, bonus_count(total, floors), i) {
        1int
    } else {
        0
    }
}

/// The learned strategy's band sizes from the total budget, the floors of
/// the per-band shares `floor(fraction * total)`, and the band indices in
/// descending order of their fractional remainders.
///
/// The shortfall `total - sum(floors)` (at most three) is handed out one
/// oscillator at a time to the bands with the largest remainders; then
/// every band is floored at one.
pub fn distribute_deficit(total: i64, floors: [i64; 3], order: [usize; 3]) -> (r: [usize; 3])
    requires
        is_band_order(order@),
        forall|i: int| 0 <= i < 3 ==> 0 <= #[trigger] floors@[i] < usize::MAX,
        forall|i: int| 0 <= i < 3 ==> #[trigger] floors@[i] < i64::MAX,
        floors@[0] + floors@[1] + floors@[2] <= i64::MAX,
        total >= 0,
    ensures
        forall|i: int|
            0 <= i < 3 ==> #[trigger] r@[i] as int == at_least(
                corrected_floor(total as int, floors@, order@, i),
                1,
            ),
{
    let allocated: i64 = floors[0] + floors[1] + floors[2];
    let deficit: i64 = total - allocated;
    let mut bumped: [i64; 3] = floors;
    let bonus: usize = if deficit <= 0 {
        0
    } else if deficit > 3 {
        3
    } else {
        deficit as usize
    };
    assert(bonus == bonus_count(total as int, floors@));
    let mut p: usize = 0;
    while p < bonus
        invariant
            bonus <= 3,
            p <= bonus,
            is_band_order(order@),
            forall|i: int| 0 <= i < 3 ==> 0 <= #[trigger] floors@[i] < usize::MAX,
            forall|i: int| 0 <= i < 3 ==> #[trigger] floors@[i] < i64::MAX,
            forall|i: int|
                0 <= i < 3 ==> #[trigger] bumped@[i] == floors@[i] + if in_first(
                    order@,
                    p as int,
                    i,
                ) {
                    1int
                } else {
                    0
                },
        decreases bonus - p,
    {
        let idx = order[p];
        proof {
            assert forall|i: int| 0 <= i < 3 implies in_first(order@, p + 1, i) == (in_first(
                order@,
                p as int,
                i,
            ) || i == idx) by {
                if i == idx {
                    assert(order@[p as int] == i);
                }
                if in_first(order@, p + 1, i) && i != idx {
                    let q = choose|q: int| 0 <= q < p + 1 && q < order@.len() && order@[q] == i;
                    assert(q < p);
                }
            }
            assert(!in_first(order@, p as int, idx as int));
        }
        bumped[idx] = bumped[idx] + 1;
        p = p + 1;
    }
    let mut r: [usize; 3] = [0, 0, 0];
    let mut i: usize = 0;
    while i < 3
        invariant
            i <= 3,
            forall|j: int| 0 <= j < 3 ==> 0 <= #[trigger] bumped@[j] <= usize::MAX,
            forall|j: int|
                0 <= j < i ==> #[trigger] r@[j] as int == at_least(bumped@[j] as int, 1),
        decreases 3 - i,
    {
        let v: i64 = if bumped[i] < 1 {
            1
        } else {
            bumped[i]
        };
        r[i] = v as usize;
        i = i + 1;
    }
    r
}

/// The largest-remainder correction hands out exactly the shortfall: when the
/// floors fall short of the total by at most three (as floors of shares
/// that add up to the total do), the corrected band sizes add up to the total.
pub proof fn law_learned_split_conserves_total(total: int, floors: Seq<i64>, order: Seq<usize>)
    requires
        is_band_order(order),
        floors.len() == 3,
        0 <= total - (floors[0] + floors[1] + floors[2]) <= 3,
    ensures
        corrected_floor(total, floors, order, 0) + corrected_floor(total, floors, order, 1)
            + corrected_floor(total, floors, order, 2) == total,
{
    let m = bonus_count(total, floors);
    assert(order[0] < 3 && order[1] < 3 && order[2] < 3);
    assert forall|i: int| 0 <= i < 3 implies in_first(order, m, i) == ((m > 0 && order[0] == i) || (
    m > 1 && order[1] == i) || (m > 2 && order[2] == i)) by {
        if in_first(order, m, i) {
            let p = choose|p: int| 0 <= p < m && p < order.len() && order[p] == i;
            assert(p == 0 || p == 1 || p == 2);
        }
        if m > 0 && order[0] == i {
            assert(0 < m && order[0] == i);
        }
        if m > 1 && order[1] == i {
            assert(1 < m && order[1] == i);
        }
        if m > 2 && order[2] == i {
            assert(2 < m && order[2] == i);
        }
    }
}


/// The rule strategy keeps each rounded share of delta and theta when it is
/// at least one and raises it to one otherwise; gamma gets what the
/// (non-negative) total leaves after delta and theta, raised to one when
/// nothing is left.
pub proof fn law_rule_counts(total: int, delta: int, theta: int)
    ensures
        ({
            let (d, th, g) = rule_counts_spec(total, delta, theta);
            let t = if total < 0 {
                0
            } else {
                total
            };
            &&& delta >= 1 ==> d == delta
            &&& delta < 1 ==> d == 1
            &&& theta >= 1 ==> th == theta
            &&& theta < 1 ==> th == 1
            &&& t - d - th >= 1 ==> g == t - d - th
            &&& t - d - th < 1 ==> g == 1
        }),
{
}

/// The largest-remainder correction hands one extra oscillator to each of
/// the first `m` bands of `order`, where `m` is the shortfall of the floors
/// against the total, capped at three (none when there is no shortfall);
/// every other band keeps its floor.
pub proof fn law_bonus_goes_to_largest_remainders(total: int, floors: Seq<i64>, order: Seq<usize>)
    requires
        is_band_order(order),
        floors.len() == 3,
    ensures
        forall|p: int|
            0 <= p < 3 ==> #[trigger] corrected_floor(total, floors, order, order[p] as int)
                == floors[order[p] as int] + if p < (if total - (floors[0] + floors[1] + floors[2])
                <= 0 {
                0
            } else if total - (floors[0] + floors[1] + floors[2]) > 3 {
                3
            } else {
                total - (floors[0] + floors[1] + floors[2])
            }) {
                1int
            } else {
                0
            },
{
    let m = bonus_count(total, floors);
    assert forall|p: int| 0 <= p < 3 implies in_first(order, m, order[p] as int) == (p < m) by {
        if in_first(order, m, order[p] as int) {
            let q = choose|q: int| 0 <= q < m && q < order.len() && order[q] == order[p] as int;
            assert(q == p);
        }
        if p < m {
            assert(0 <= p < m && p < order.len() && order[p] == order[p] as int);
        }
    }
}

} // verus!
