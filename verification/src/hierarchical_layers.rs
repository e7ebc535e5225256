//! Integer rules of the hierarchical resonance layer: how many neighbours
//! each band's sparse phase-kNN coupling uses, which oscillators are the
//! neighbours of each oscillator on the phase-sorted ring, and the size and
//! parameter-shape rules of the hierarchical and discrete band layers.
use vstd::prelude::*;

use crate::bands::{band_sizes_spec, validate_band_sizes};
use crate::error::TrainError;
use crate::shapes::{shape_table_is, ParamShape};

verus! {

/// `2^e`.
pub open spec fn two_pow(e: nat) -> nat
    decreases e,
{
    if e == 0 {
        1
    } else {
        2 * two_pow((e - 1) as nat)
    }
}

proof fn lemma_two_pow_exceeds(e: nat)
    ensures
        two_pow(e) >= e + 1,
    decreases e,
{
    if e > 0 {
        lemma_two_pow_exceeds((e - 1) as nat);
    }
}

/// `ceil(log2(n))` for `n >= 1` (and `0` for `n <= 1`).
pub open spec fn ceil_log2(n: nat) -> nat
    decreases n,
{
    if n <= 1 {
        0
    } else {
        1 + ceil_log2(((n + 1) / 2) as nat)
    }
}

proof fn lemma_ceil_log2_bounds(n: nat)
    requires
        n >= 2,
    ensures
        ceil_log2(n) >= 1,
        two_pow((ceil_log2(n) - 1) as nat) < n <= two_pow(ceil_log2(n)),
    decreases n,
{
    let m = ((n + 1) / 2) as nat;
    assert(ceil_log2(n) == 1 + ceil_log2(m));
    if m >= 2 {
        lemma_ceil_log2_bounds(m);
        let c = ceil_log2(m);
        assert(two_pow(c) == 2 * two_pow((c - 1) as nat));
        assert(two_pow((c + 1) as nat) == 2 * two_pow(c));
        assert((ceil_log2(n) - 1) as nat == c);
    } else {
        assert(m == 1);
        assert(ceil_log2(m) == 0);
        assert(two_pow(1) == 2 * two_pow(0));
    }
}

/// The automatic neighbour count rule: `0` for `n <= 1`, otherwise
/// `ceil(log2(n))` clamped to `[1, n - 1]` (the clamp never binds).
pub open spec fn automatic_sparse_k_spec(n: nat) -> nat {
    if n <= 1 {
        0
    } else {
        ceil_log2(n)
    }
}

/// The automatic per-band neighbour count for a band of `n` oscillators:
/// `0` for `n <= 1`, otherwise `ceil(log2(n))` clamped to `[1, n - 1]`.
///
/// For `n >= 2` the result `k` is the unique exponent with
/// `2^(k-1) < n <= 2^k`.
pub fn automatic_sparse_k(n: usize) -> (k: usize)
    ensures
        k == automatic_sparse_k_spec(n as nat),
        n >= 2 ==> 1 <= k <= n - 1,
        n >= 2 ==> two_pow((k - 1) as nat) < n <= two_pow(k as nat),
{
    if n <= 1 {
        return 0;
    }
    let mut e: usize = 0;
    let mut p: u128 = 1;
    while p < n as u128
        invariant
            n >= 2,
            p == two_pow(e as nat),
            1 <= p <= 2 * (n as int),
            e + 1 <= p,
            e == 0 || two_pow((e - 1) as nat) < n,
        decreases 2 * (n as int) - p,
    {
        p = p * 2;
        e = e + 1;
        proof {
            lemma_two_pow_exceeds(e as nat);
        }
    }
    proof {
        lemma_two_pow_exceeds((e - 1) as nat);
        lemma_ceil_log2_bounds(n as nat);
        lemma_ceil_log2_unique(e as nat, ceil_log2(n as nat), n as nat);
    }
    e
}

proof fn lemma_two_pow_monotone(a: nat, b: nat)
    requires
        a <= b,
    ensures
        two_pow(a) <= two_pow(b),
    decreases b - a,
{
    if a < b {
        lemma_two_pow_monotone(a, (b - 1) as nat);
    }
}

/// The neighbour count a band of `n` oscillators uses: the configured
/// common count when there is one, the automatic count otherwise.
pub fn resolve_sparse_k(sparse_k: Option<usize>, n: usize) -> (k: usize)
    ensures
        sparse_k matches Some(c) ==> k == c,
        sparse_k is None ==> k == automatic_sparse_k_spec(n as nat),
{
    match sparse_k {
        Some(c) => c,
        None => automatic_sparse_k(n),
    }
}

proof fn lemma_ceil_log2_unique(a: nat, b: nat, n: nat)
    requires
        1 <= a,
        1 <= b,
        two_pow((a - 1) as nat) < n <= two_pow(a),
        two_pow((b - 1) as nat) < n <= two_pow(b),
    ensures
        a == b,
{
    if a < b {
        lemma_two_pow_monotone(a, (b - 1) as nat);
    } else if b < a {
        lemma_two_pow_monotone(b, (a - 1) as nat);
    }
}

/// The number of neighbours each oscillator of a band of `n >= 2`
/// oscillators is coupled to, given the requested count: at least one and at
/// most `n - 1`.
pub fn neighbor_count(sparse_k: usize, n: usize) -> (k: usize)
    requires
        n >= 2,
    ensures
        k == (if sparse_k > n - 1 {
            (n - 1) as int
        } else if sparse_k < 1 {
            1
        } else {
            sparse_k as int
        }),
        1 <= k <= n - 1,
{
    let capped = if sparse_k < n - 1 {
        sparse_k
    } else {
        n - 1
    };
    if capped < 1 {
        1
    } else {
        capped
    }
}

/// The `j`-th ring offset of `k` neighbours on a ring of `n` positions: the
/// `k / 2` positions just before (farthest first), then the `k - k / 2`
/// positions just after.
pub open spec fn ring_offset(n: int, k: int, j: int) -> int {
    let half = k / 2;
    if j < half {
        n - (half - j)
    } else {
        j - half + 1
    }
}

/// `s` lists each of `0..s.len()` exactly once.
pub open spec fn is_permutation(s: Seq<usize>) -> bool {
    &&& forall|i: int| 0 <= i < s.len() ==> #[trigger] s[i] < s.len()
    &&& forall|i: int, j: int| 0 <= i < j < s.len() ==> s[i] != s[j]
}

/// Neighbour indices on the phase-sorted ring.
///
/// `sort_idx` is the ascending phase order of one batch row (position `p`
/// of the sorted ring holds oscillator `sort_idx[p]`). Row `i` of the result
/// lists the `k` oscillators nearest to oscillator `i` on that ring: the
/// `k / 2` predecessors (farthest first) followed by the `k - k / 2`
/// successors, wrapping around.
///
/// When `k < n`, each row holds `k` distinct oscillators, none of them the
/// row's own.
pub fn sparse_neighbor_indices(sort_idx: &[usize], k: usize) -> (r: Vec<Vec<usize>>)
    requires
        is_permutation(sort_idx@),
        k / 2 <= sort_idx@.len(),
    ensures
        r@.len() == sort_idx@.len(),
        forall|i: int| 0 <= i < r@.len() ==> (#[trigger] r@[i])@.len() == k,
        forall|p: int, j: int|
            0 <= p < sort_idx@.len() && 0 <= j < k ==> r@[sort_idx@[p] as int]@[j]
                == sort_idx@[(p + ring_offset(sort_idx@.len() as int, k as int, j)) % (
            sort_idx@.len() as int)],
        k < sort_idx@.len() ==> forall|i: int, j1: int, j2: int|
            0 <= i < r@.len() && 0 <= j1 < j2 < k ==> r@[i]@[j1] != r@[i]@[j2],
        k < sort_idx@.len() ==> forall|i: int, j: int|
            0 <= i < r@.len() && 0 <= j < k ==> r@[i]@[j] != i,
{
    let n = sort_idx.len();
    let half = k / 2;
    let mut r: Vec<Vec<usize>> = Vec::new();
    let mut i: usize = 0;
    while i < n
        invariant
            i <= n,
            r@.len() == i,
        decreases n - i,
    {
        r.push(Vec::new());
        i = i + 1;
    }
    let ghost filled: Set<int> = Set::empty();
    let mut p: usize = 0;
    while p < n
        invariant
            n == sort_idx@.len(),
            half == k / 2,
            half <= n,
            is_permutation(sort_idx@),
            p <= n,
            r@.len() == n,
            forall|q: int, j: int|
                0 <= q < p && 0 <= j < k ==> r@[sort_idx@[q] as int]@[j] == sort_idx@[(q
                    + ring_offset(n as int, k as int, j)) % (n as int)],
            forall|q: int| 0 <= q < p ==> (#[trigger] r@[sort_idx@[q] as int])@.len() == k,
        decreases n - p,
    {
        let mut row: Vec<usize> = Vec::new();
        let mut j: usize = 0;
        while j < k
            invariant
                n == sort_idx@.len(),
                half == k / 2,
                half <= n,
                p < n,
                is_permutation(sort_idx@),
                j <= k,
                row@.len() == j,
                forall|jj: int|
                    0 <= jj < j ==> row@[jj] == sort_idx@[(p + ring_offset(
                        n as int,
                        k as int,
                        jj,
                    )) % (n as int)],
            decreases k - j,
        {
            let offset: usize = if j < half {
                n - (half - j)
            } else {
                j - half + 1
            };
            assert(offset == ring_offset(n as int, k as int, j as int));
            let pos: usize = ((p as u128 + offset as u128) % (n as u128)) as usize;
            row.push(sort_idx[pos]);
            j = j + 1;
        }
        let target = sort_idx[p];
        proof {
            assert forall|q: int| 0 <= q < p implies sort_idx@[q] != target by {}
        }
        r.set(target, row);
        p = p + 1;
    }
    proof {
        if k < n {
            assert forall|i: int, j1: int, j2: int|
                0 <= i < r@.len() && 0 <= j1 < j2 < k implies r@[i]@[j1] != r@[i]@[j2] by {
                let q = lemma_position_of(sort_idx@, i);
                lemma_ring_offsets_distinct(n as int, k as int, q, j1, j2);
            }
            assert forall|i: int, j: int| 0 <= i < r@.len() && 0 <= j < k implies r@[i]@[j]
                != i by {
                let q = lemma_position_of(sort_idx@, i);
                lemma_ring_offset_not_self(n as int, k as int, q, j);
            }
        }
        assert forall|i: int| 0 <= i < r@.len() implies (#[trigger] r@[i])@.len() == k by {
            let q = lemma_position_of(sort_idx@, i);
        }
    }
    r
}

/// Two different offsets land on different positions of the ring.
proof fn lemma_ring_offsets_distinct(n: int, k: int, q: int, j1: int, j2: int)
    requires
        0 <= q < n,
        0 <= k < n,
        0 <= j1 < j2 < k,
    ensures
        (q + ring_offset(n, k, j1)) % n != (q + ring_offset(n, k, j2)) % n,
{
    let o1 = ring_offset(n, k, j1);
    let o2 = ring_offset(n, k, j2);
    assert(1 <= o1 < n && 1 <= o2 < n && o1 != o2);
    if o1 < o2 {
        lemma_mod_distinct(q + o1, q + o2, n);
    } else {
        lemma_mod_distinct(q + o2, q + o1, n);
    }
}

/// No offset lands back on the starting position.
proof fn lemma_ring_offset_not_self(n: int, k: int, q: int, j: int)
    requires
        0 <= q < n,
        0 <= k < n,
        0 <= j < k,
    ensures
        (q + ring_offset(n, k, j)) % n != q,
{
    let o = ring_offset(n, k, j);
    assert(1 <= o < n);
    assert(q == q % n) by (nonlinear_arith)
        requires
            0 <= q < n,
    ;
    lemma_mod_distinct(q, q + o, n);
}

proof fn lemma_mod_distinct(a: int, b: int, n: int)
    requires
        0 <= a < b,
        b - a < n,
        n > 0,
    ensures
        a % n != b % n,
{
    assert(a % n != b % n) by (nonlinear_arith)
        requires
            0 <= a < b,
            b - a < n,
            n > 0,
    ;
}

/// Every oscillator index of a permutation occurs at some position.
proof fn lemma_position_of(s: Seq<usize>, i: int) -> (q: int)
    requires
        is_permutation(s),
        0 <= i < s.len(),
    ensures
        0 <= q < s.len(),
        s[q] == i,
{
    let t = Seq::new(s.len(), |q: int| s[q] as int);
    assert(t.no_duplicates());
    t.unique_seq_to_set();
    vstd::seq_lib::seq_to_set_is_finite(t);
    vstd::set_lib::lemma_int_range(0, s.len() as int);
    let range = vstd::set_lib::set_int_range(0, s.len() as int);
    assert(t.to_set().subset_of(range));
    vstd::set_lib::lemma_subset_equality(t.to_set(), range);
    assert(range.contains(i));
    assert(t.contains(i));
    let q = choose|q: int| 0 <= q < t.len() && t[q] == i;
    q
}

/// The outcome of the hierarchical layer's size checks, in the order they
/// are made: non-empty bands, a positive input width, at least one step.
pub open spec fn hierarchical_sizes_spec(
    n_delta: usize,
    n_theta: usize,
    n_gamma: usize,
    n_dims: usize,
    n_steps: usize,
) -> Result<(), TrainError> {
    if band_sizes_spec(n_delta, n_theta, n_gamma) is Err {
        band_sizes_spec(n_delta, n_theta, n_gamma)
    } else if n_dims == 0 {
        Err(TrainError::EmptyBand { name: "input" })
    } else if n_steps == 0 {
        Err(TrainError::InvalidStepCount { name: "n_steps", value: n_steps })
    } else {
        Ok(())
    }
}

/// Check the hierarchical layer's sizes: non-empty delta/theta/gamma bands,
/// a positive input width (`"input"`), and at least one outer step.
pub fn validate_hierarchical_sizes(
    n_delta: usize,
    n_theta: usize,
    n_gamma: usize,
    n_dims: usize,
    n_steps: usize,
) -> (r: Result<(), TrainError>)
    ensures
        r == hierarchical_sizes_spec(n_delta, n_theta, n_gamma, n_dims, n_steps),
{
    validate_band_sizes(n_delta, n_theta, n_gamma)?;
    if n_dims == 0 {
        return Err(TrainError::EmptyBand { name: "input" });
    }
    if n_steps == 0 {
        return Err(TrainError::InvalidStepCount { name: "n_steps", value: n_steps });
    }
    Ok(())
}

/// The outcome of the discrete three-band layer's own size checks, in the
/// order they are made: a positive input width, then at least one step.
pub open spec fn discrete_layer_sizes_spec(n_dims: usize, n_steps: usize) -> Result<(), TrainError> {
    if n_dims == 0 {
        Err(TrainError::EmptyBand { name: "input" })
    } else if n_steps == 0 {
        Err(TrainError::InvalidStepCount { name: "n_steps", value: n_steps })
    } else {
        Ok(())
    }
}

/// Check the discrete three-band layer's input width (`"input"`) and step
/// count; its band sizes are checked afterwards, with its dynamics.
pub fn validate_discrete_layer_sizes(n_dims: usize, n_steps: usize) -> (r: Result<(), TrainError>)
    ensures
        r == discrete_layer_sizes_spec(n_dims, n_steps),
{
    if n_dims == 0 {
        return Err(TrainError::EmptyBand { name: "input" });
    }
    if n_steps == 0 {
        return Err(TrainError::InvalidStepCount { name: "n_steps", value: n_steps });
    }
    Ok(())
}

/// Parameter shapes of a hierarchical layer with band sizes `nd`, `nt`,
/// `ng` over `d` input features, in the order they are checked: the three
/// bias-free band projections `[band, d]`, then the two one-element PAC
/// depths.
pub open spec fn hierarchical_shapes(nd: usize, nt: usize, ng: usize, d: usize) -> Seq<
    (&'static str, Seq<usize>),
> {
    seq![
        ("proj_delta", seq![nd, d]),
        ("proj_theta", seq![nt, d]),
        ("proj_gamma", seq![ng, d]),
        ("pac_depth_dt", seq![1usize]),
        ("pac_depth_tg", seq![1usize]),
    ]
}

/// The parameter shapes a hierarchical layer is built from, in the order
/// they are checked.
pub fn hierarchical_param_shapes(n_delta: usize, n_theta: usize, n_gamma: usize, n_dims: usize) -> (r:
    Vec<ParamShape>)
    ensures
        shape_table_is(r@, hierarchical_shapes(n_delta, n_theta, n_gamma, n_dims)),
{
    let d = n_dims;
    let r = vec![
        ParamShape { name: "proj_delta", dims: vec![n_delta, d] },
        ParamShape { name: "proj_theta", dims: vec![n_theta, d] },
        ParamShape { name: "proj_gamma", dims: vec![n_gamma, d] },
        ParamShape { name: "pac_depth_dt", dims: vec![1] },
        ParamShape { name: "pac_depth_tg", dims: vec![1] },
    ];
    assert(r@[0].dims@ =~= seq![n_delta, d]);
    assert(r@[1].dims@ =~= seq![n_theta, d]);
    assert(r@[2].dims@ =~= seq![n_gamma, d]);
    assert(r@[3].dims@ =~= seq![1usize]);
    assert(r@[4].dims@ =~= seq![1usize]);
    r
}

/// Check an explicitly configured common neighbour count: zero neighbours
/// are an [`TrainError::InvalidTopK`]; no explicit count is always valid.
pub fn validate_sparse_k(sparse_k: Option<usize>) -> (r: Result<(), TrainError>)
    ensures
        r == (if sparse_k == Some(0usize) {
            Err(TrainError::InvalidTopK { k: 0 })
        } else {
            Ok(())
        }),
{
    match sparse_k {
        Some(0) => Err(TrainError::InvalidTopK { k: 0 }),
        _ => Ok(()),
    }
}


/// Each band projection of a hierarchical layer maps the layer's input
/// features to its band, one row per oscillator of the band
/// (`[band size, n_dims]`), and each PAC depth is a single value.
pub proof fn law_hierarchical_shapes_follow_bands(nd: usize, nt: usize, ng: usize, d: usize)
    ensures
        ({
            let t = hierarchical_shapes(nd, nt, ng, d);
            &&& t.len() == 5
            &&& t[0].1.len() == 2 && t[1].1.len() == 2 && t[2].1.len() == 2
            &&& t[0].1[1] == d && t[1].1[1] == d && t[2].1[1] == d
            &&& t[0].1[0] == nd && t[1].1[0] == nt && t[2].1[0] == ng
            &&& t[3].1 == seq![1usize] && t[4].1 == seq![1usize]
            &&& t[0].0 == "proj_delta" && t[1].0 == "proj_theta" && t[2].0 == "proj_gamma"
            &&& t[3].0 == "pac_depth_dt" && t[4].0 == "pac_depth_tg"
        }),
{
}

/// The hierarchical layer accepts exactly non-empty bands, a positive input
/// width and at least one step. Band errors come first, as the band rule
/// reports them; then a zero width is reported as `"input"` and a zero step
/// count as `"n_steps"`. The discrete band layer checks the same width and
/// step rule, before its bands.
pub proof fn law_layer_sizes(nd: usize, nt: usize, ng: usize, d: usize, steps: usize)
    ensures
        hierarchical_sizes_spec(nd, nt, ng, d, steps) is Ok <==> (nd > 0 && nt > 0 && ng > 0 && d
            > 0 && steps > 0),
        band_sizes_spec(nd, nt, ng) is Err ==> hierarchical_sizes_spec(nd, nt, ng, d, steps)
            == band_sizes_spec(nd, nt, ng),
        band_sizes_spec(nd, nt, ng) is Ok ==> hierarchical_sizes_spec(nd, nt, ng, d, steps)
            == discrete_layer_sizes_spec(d, steps),
        discrete_layer_sizes_spec(d, steps) is Ok <==> (d > 0 && steps > 0),
        d == 0 ==> discrete_layer_sizes_spec(d, steps) == Err::<(), TrainError>(
            TrainError::EmptyBand { name: "input" },
        ),
        d > 0 && steps == 0 ==> discrete_layer_sizes_spec(d, steps) == Err::<(), TrainError>(
            TrainError::InvalidStepCount { name: "n_steps", value: 0 },
        ),
{
    crate::bands::law_band_sizes(nd, nt, ng);
}

/// The automatic neighbour count of a band of `n >= 2` oscillators is the
/// number of binary digits needed to index the band: the least `k` with
/// `n <= 2^k`. It is at least one and leaves at least one oscillator out.
/// A band of at most one oscillator has no neighbours.
pub proof fn law_automatic_sparse_k(n: nat)
    ensures
        n <= 1 ==> automatic_sparse_k_spec(n) == 0,
        n >= 2 ==> {
            let k = automatic_sparse_k_spec(n);
            &&& 1 <= k <= n - 1
            &&& vstd::arithmetic::power2::pow2((k - 1) as nat) < n
            &&& n <= vstd::arithmetic::power2::pow2(k)
        },
{
    if n >= 2 {
        lemma_ceil_log2_bounds(n);
        let k = ceil_log2(n);
        lemma_two_pow_is_pow2(k);
        lemma_two_pow_is_pow2((k - 1) as nat);
        lemma_two_pow_exceeds((k - 1) as nat);
    }
}

proof fn lemma_two_pow_is_pow2(e: nat)
    ensures
        two_pow(e) == vstd::arithmetic::power2::pow2(e),
    decreases e,
{
    if e == 0 {
        vstd::arithmetic::power2::lemma2_to64();
    } else {
        lemma_two_pow_is_pow2((e - 1) as nat);
        vstd::arithmetic::power2::lemma_pow2_unfold(e);
    }
}

/// On the phase-sorted ring of `n` positions, the first `k / 2` of `k`
/// neighbours are the predecessors, farthest first (`k / 2` steps back down
/// to one step back), and the remaining `k - k / 2` are the successors,
/// nearest first (one step forward up to `k - k / 2` steps forward). No
/// neighbour sits at the oscillator's own position when `k < n`.
pub proof fn law_ring_neighbours(n: int, k: int, j: int)
    requires
        0 <= j < k,
        k / 2 <= n,
    ensures
        j < k / 2 ==> ring_offset(n, k, j) == n - (k / 2 - j) && 1 <= k / 2 - j <= k / 2,
        j >= k / 2 ==> ring_offset(n, k, j) == j - k / 2 + 1 && 1 <= j - k / 2 + 1 <= k - k / 2,
        0 < k < n ==> 0 < ring_offset(n, k, j) < n,
{
}

} // verus!
