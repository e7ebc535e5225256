//! Multi-head oscillatory attention: the head-split rule and the
//! parameter-shape contract.
use vstd::prelude::*;

use crate::error::TrainError;
use crate::shapes::{shape_table_is, ParamShape};

verus! {

/// The outcome of the head-split rule for a model width and head count.
pub open spec fn attention_heads_spec(d_model: usize, n_heads: usize) -> Result<usize, TrainError> {
    if d_model == 0 {
        Err(TrainError::EmptyBand { name: "d_model" })
    } else if n_heads == 0 {
        Err(TrainError::EmptyBand { name: "n_heads" })
    } else if d_model % n_heads != 0 {
        Err(TrainError::IndivisibleHeads { d_model, n_heads })
    } else {
        Ok((d_model / n_heads) as usize)
    }
}

/// Validate a model width and head count and return the per-head width
/// `d_k = d_model / n_heads`.
///
/// Zero width or zero heads are an [`TrainError::EmptyBand`] (width first);
/// a width that is not a multiple of the head count is
/// [`TrainError::IndivisibleHeads`].
pub fn attention_head_dim(d_model: usize, n_heads: usize) -> (r: Result<usize, TrainError>)
    ensures
        r == attention_heads_spec(d_model, n_heads),
        r matches Ok(d_k) ==> d_k * n_heads == d_model,
{
    if d_model == 0 {
        return Err(TrainError::EmptyBand { name: "d_model" });
    }
    if n_heads == 0 {
        return Err(TrainError::EmptyBand { name: "n_heads" });
    }
    if d_model % n_heads != 0 {
        return Err(TrainError::IndivisibleHeads { d_model, n_heads });
    }
    let d_k = d_model / n_heads;
    assert(d_k * n_heads == d_model) by (nonlinear_arith)
        requires
            d_model % n_heads == 0,
            n_heads > 0,
            d_k == d_model / n_heads,
    ;
    Ok(d_k)
}

/// Parameter shapes of an attention layer of width `d` with `h` heads, in the
/// order they are checked: the query, key, value and output projections
/// (`[d, d]` weights, `[d]` biases), the phase projection (`[d, h]`, `[h]`)
/// and the per-head coherence weight `alpha` (`[h]`).
pub open spec fn attention_shapes(d: usize, h: usize) -> Seq<(&'static str, Seq<usize>)> {
    seq![
        ("w_q_weight", seq![d, d]),
        ("w_q_bias", seq![d]),
        ("w_k_weight", seq![d, d]),
        ("w_k_bias", seq![d]),
        ("w_v_weight", seq![d, d]),
        ("w_v_bias", seq![d]),
        ("w_o_weight", seq![d, d]),
        ("w_o_bias", seq![d]),
        ("phase_proj_weight", seq![d, h]),
        ("phase_proj_bias", seq![h]),
        ("alpha", seq![h]),
    ]
}

/// The parameter shapes an attention layer of width `d_model` with
/// `n_heads` heads is built from, in the order they are checked.
pub fn attention_param_shapes(d_model: usize, n_heads: usize) -> (r: Vec<ParamShape>)
    ensures
        shape_table_is(r@, attention_shapes(d_model, n_heads)),
{
    let (d, h) = (d_model, n_heads);
    let r = vec![
        ParamShape { name: "w_q_weight", dims: vec![d, d] },
        ParamShape { name: "w_q_bias", dims: vec![d] },
        ParamShape { name: "w_k_weight", dims: vec![d, d] },
        ParamShape { name: "w_k_bias", dims: vec![d] },
        ParamShape { name: "w_v_weight", dims: vec![d, d] },
        ParamShape { name: "w_v_bias", dims: vec![d] },
        ParamShape { name: "w_o_weight", dims: vec![d, d] },
        ParamShape { name: "w_o_bias", dims: vec![d] },
        ParamShape { name: "phase_proj_weight", dims: vec![d, h] },
        ParamShape { name: "phase_proj_bias", dims: vec![h] },
        ParamShape { name: "alpha", dims: vec![h] },
    ];
    assert(r@[0].dims@ =~= seq![d, d]);
    assert(r@[1].dims@ =~= seq![d]);
    assert(r@[2].dims@ =~= seq![d, d]);
    assert(r@[3].dims@ =~= seq![d]);
    assert(r@[4].dims@ =~= seq![d, d]);
    assert(r@[5].dims@ =~= seq![d]);
    assert(r@[6].dims@ =~= seq![d, d]);
    assert(r@[7].dims@ =~= seq![d]);
    assert(r@[8].dims@ =~= seq![d, h]);
    assert(r@[9].dims@ =~= seq![h]);
    assert(r@[10].dims@ =~= seq![h]);
    r
}


/// The attention layer's tensors are sized by its width and head count: the
/// query, key, value and output projections map the width to itself, each
/// with one bias entry per output feature; the phase projection maps the
/// width to one phase per head, with one bias entry per head; and there is
/// one coherence weight per head.
pub proof fn law_attention_shapes_follow_width_and_heads(d: usize, h: usize)
    ensures
        ({
            let t = attention_shapes(d, h);
            &&& t.len() == 11
            &&& forall|p: int| 0 <= p < 4 ==> #[trigger] t[2 * p].1 == seq![d, d]
            &&& forall|p: int| 0 <= p < 4 ==> #[trigger] t[2 * p + 1].1 == seq![t[2 * p].1[0]]
            &&& t[8].1 == seq![d, h]
            &&& t[9].1 == seq![t[8].1[1]]
            &&& t[10].1 == seq![h]
            &&& t[0].0 == "w_q_weight" && t[1].0 == "w_q_bias" && t[2].0 == "w_k_weight"
            &&& t[3].0 == "w_k_bias" && t[4].0 == "w_v_weight" && t[5].0 == "w_v_bias"
            &&& t[6].0 == "w_o_weight" && t[7].0 == "w_o_bias"
            &&& t[8].0 == "phase_proj_weight" && t[9].0 == "phase_proj_bias" && t[10].0 == "alpha"
        }),
{
    let t = attention_shapes(d, h);
    assert forall|p: int| 0 <= p < 4 implies #[trigger] t[2 * p].1 == seq![d, d] && t[2 * p + 1].1
        == seq![t[2 * p].1[0]] by {
        if p == 0 {
        } else if p == 1 {
        } else if p == 2 {
        } else {
        }
    }
}

/// The head split accepts exactly a positive width divisible by a positive
/// head count, and then gives each head an equal share of the width. A zero
/// width is reported first, as `"d_model"`, then a zero head count, as
/// `"n_heads"`; an uneven split reports both numbers.
pub proof fn law_head_split(d: usize, h: usize)
    ensures
        attention_heads_spec(d, h) is Ok <==> (d > 0 && h > 0 && d % h == 0),
        attention_heads_spec(d, h) matches Ok(k) ==> k * h == d,
        d == 0 ==> attention_heads_spec(d, h) == Err::<usize, TrainError>(
            TrainError::EmptyBand { name: "d_model" },
        ),
        d > 0 && h == 0 ==> attention_heads_spec(d, h) == Err::<usize, TrainError>(
            TrainError::EmptyBand { name: "n_heads" },
        ),
        d > 0 && h > 0 && d % h != 0 ==> attention_heads_spec(d, h) == Err::<usize, TrainError>(
            TrainError::IndivisibleHeads { d_model: d, n_heads: h },
        ),
{
    if d > 0 && h > 0 && d % h == 0 {
        let k = (d / h) as usize;
        assert(k * h == d) by (nonlinear_arith)
            requires
                d % h == 0,
                h > 0,
                k == d / h,
        ;
    }
}

} // verus!
