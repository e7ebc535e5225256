//! The discrete delta/theta/gamma oscillator network: band-size rule and the
//! parameter-shape contract of its learnable tensors.
use vstd::prelude::*;

use crate::error::TrainError;
use crate::shapes::{shape_table_is, ParamShape};

verus! {

/// The outcome of the band-size rule: every band needs at least one
/// oscillator, checked delta, theta, gamma.
pub open spec fn band_sizes_spec(n_delta: usize, n_theta: usize, n_gamma: usize) -> Result<
    (),
    TrainError,
> {
    if n_delta == 0 {
        Err(TrainError::EmptyBand { name: "delta" })
    } else if n_theta == 0 {
        Err(TrainError::EmptyBand { name: "theta" })
    } else if n_gamma == 0 {
        Err(TrainError::EmptyBand { name: "gamma" })
    } else {
        Ok(())
    }
}

/// Check that each of the three bands has at least one oscillator.
pub fn validate_band_sizes(n_delta: usize, n_theta: usize, n_gamma: usize) -> (r: Result<
    (),
    TrainError,
>)
    ensures
        r == band_sizes_spec(n_delta, n_theta, n_gamma),
{
    if n_delta == 0 {
        return Err(TrainError::EmptyBand { name: "delta" });
    }
    if n_theta == 0 {
        return Err(TrainError::EmptyBand { name: "theta" });
    }
    if n_gamma == 0 {
        return Err(TrainError::EmptyBand { name: "gamma" });
    }
    Ok(())
}

/// Parameter shapes of a three-band network with band sizes `nd`, `nt`,
/// `ng`, in the order they are checked: per-band natural frequencies,
/// per-band coupling matrices, the delta→theta and theta→gamma PAC weights
/// and biases, and the three scalar Stuart–Landau growth rates.
pub open spec fn band_shapes(nd: usize, nt: usize, ng: usize) -> Seq<(&'static str, Seq<usize>)> {
    seq![
        ("delta_freq", seq![nd]),
        ("theta_freq", seq![nt]),
        ("gamma_freq", seq![ng]),
        ("w_delta", seq![nd, nd]),
        ("w_theta", seq![nt, nt]),
        ("w_gamma", seq![ng, ng]),
        ("w_pac_dt", seq![(2 * nd) as usize, nt]),
        ("b_pac_dt", seq![nt]),
        ("w_pac_tg", seq![(2 * nt) as usize, ng]),
        ("b_pac_tg", seq![ng]),
        ("mu_delta", seq![1usize, 1usize]),
        ("mu_theta", seq![1usize, 1usize]),
        ("mu_gamma", seq![1usize, 1usize]),
    ]
}

/// The parameter shapes a three-band network is built from, in the order
/// they are checked.
pub fn band_param_shapes(n_delta: usize, n_theta: usize, n_gamma: usize) -> (r: Vec<ParamShape>)
    requires
        2 * n_delta <= usize::MAX,
        2 * n_theta <= usize::MAX,
    ensures
        shape_table_is(r@, band_shapes(n_delta, n_theta, n_gamma)),
{
    let (nd, nt, ng) = (n_delta, n_theta, n_gamma);
    let r = vec![
        ParamShape { name: "delta_freq", dims: vec![nd] },
        ParamShape { name: "theta_freq", dims: vec![nt] },
        ParamShape { name: "gamma_freq", dims: vec![ng] },
        ParamShape { name: "w_delta", dims: vec![nd, nd] },
        ParamShape { name: "w_theta", dims: vec![nt, nt] },
        ParamShape { name: "w_gamma", dims: vec![ng, ng] },
        ParamShape { name: "w_pac_dt", dims: vec![2 * nd, nt] },
        ParamShape { name: "b_pac_dt", dims: vec![nt] },
        ParamShape { name: "w_pac_tg", dims: vec![2 * nt, ng] },
        ParamShape { name: "b_pac_tg", dims: vec![ng] },
        ParamShape { name: "mu_delta", dims: vec![1, 1] },
        ParamShape { name: "mu_theta", dims: vec![1, 1] },
        ParamShape { name: "mu_gamma", dims: vec![1, 1] },
    ];
    assert(r@[0].dims@ =~= seq![nd]);
    assert(r@[1].dims@ =~= seq![nt]);
    assert(r@[2].dims@ =~= seq![ng]);
    assert(r@[3].dims@ =~= seq![nd, nd]);
    assert(r@[4].dims@ =~= seq![nt, nt]);
    assert(r@[5].dims@ =~= seq![ng, ng]);
    assert(r@[6].dims@ =~= seq![(2 * nd) as usize, nt]);
    assert(r@[7].dims@ =~= seq![nt]);
    assert(r@[8].dims@ =~= seq![(2 * nt) as usize, ng]);
    assert(r@[9].dims@ =~= seq![ng]);
    assert(r@[10].dims@ =~= seq![1usize, 1usize]);
    assert(r@[11].dims@ =~= seq![1usize, 1usize]);
    assert(r@[12].dims@ =~= seq![1usize, 1usize]);
    r
}


/// Every tensor of a three-band network is sized by the bands it connects.
/// Each band's natural frequencies have one entry per oscillator of the
/// band, and its coupling matrix is square over the band. Each PAC gate
/// reads the cosine and sine of its source band (twice the source band's
/// size) and writes its target band, with one bias entry per target
/// oscillator: delta drives theta, theta drives gamma. Each growth rate is a
/// single `1 x 1` value.
pub proof fn law_band_shapes_follow_band_sizes(nd: usize, nt: usize, ng: usize)
    requires
        2 * nd <= usize::MAX,
        2 * nt <= usize::MAX,
    ensures
        ({
            let t = band_shapes(nd, nt, ng);
            &&& t.len() == 13
            &&& t[0].1 == seq![nd] && t[1].1 == seq![nt] && t[2].1 == seq![ng]
            &&& forall|b: int|
                0 <= b < 3 ==> #[trigger] t[3 + b].1 == seq![t[b].1[0], t[b].1[0]]
            &&& t[6].1.len() == 2 && t[6].1[0] == 2 * nd && t[6].1[1] == nt
            &&& t[7].1 == seq![t[6].1[1]]
            &&& t[8].1.len() == 2 && t[8].1[0] == 2 * nt && t[8].1[1] == ng
            &&& t[9].1 == seq![t[8].1[1]]
            &&& forall|b: int| 10 <= b < 13 ==> #[trigger] t[b].1 == seq![1usize, 1usize]
            &&& t[0].0 == "delta_freq" && t[1].0 == "theta_freq" && t[2].0 == "gamma_freq"
            &&& t[3].0 == "w_delta" && t[4].0 == "w_theta" && t[5].0 == "w_gamma"
            &&& t[6].0 == "w_pac_dt" && t[7].0 == "b_pac_dt"
            &&& t[8].0 == "w_pac_tg" && t[9].0 == "b_pac_tg"
            &&& t[10].0 == "mu_delta" && t[11].0 == "mu_theta" && t[12].0 == "mu_gamma"
        }),
{
    let t = band_shapes(nd, nt, ng);
    assert(t[3].1 == seq![t[0].1[0], t[0].1[0]]);
    assert(t[4].1 == seq![t[1].1[0], t[1].1[0]]);
    assert(t[5].1 == seq![t[2].1[0], t[2].1[0]]);
    assert(forall|b: int| 0 <= b < 3 ==> #[trigger] t[3 + b].1 == seq![t[b].1[0], t[b].1[0]]) by {
        assert forall|b: int| 0 <= b < 3 implies #[trigger] t[3 + b].1 == seq![t[b].1[0], t[b].1[0]] by {
            if b == 0 {
            } else if b == 1 {
            } else {
            }
        }
    }
    assert(forall|b: int| 10 <= b < 13 ==> #[trigger] t[b].1 == seq![1usize, 1usize]) by {
        assert forall|b: int| 10 <= b < 13 implies #[trigger] t[b].1 == seq![1usize, 1usize] by {
            if b == 10 {
            } else if b == 11 {
            } else {
            }
        }
    }
}

/// The band-size rule accepts exactly three non-empty bands; the first empty
/// band, in the order delta, theta, gamma, is reported by its name.
pub proof fn law_band_sizes(nd: usize, nt: usize, ng: usize)
    ensures
        band_sizes_spec(nd, nt, ng) is Ok <==> (nd > 0 && nt > 0 && ng > 0),
        nd == 0 ==> band_sizes_spec(nd, nt, ng) == Err::<(), TrainError>(
            TrainError::EmptyBand { name: "delta" },
        ),
        nd > 0 && nt == 0 ==> band_sizes_spec(nd, nt, ng) == Err::<(), TrainError>(
            TrainError::EmptyBand { name: "theta" },
        ),
        nd > 0 && nt > 0 && ng == 0 ==> band_sizes_spec(nd, nt, ng) == Err::<(), TrainError>(
            TrainError::EmptyBand { name: "gamma" },
        ),
{
}

} // verus!
