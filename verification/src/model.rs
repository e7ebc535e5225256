//! The stacked resonance model's size rules: its dimension/count
//! hyperparameters, and the shapes its explicit parameter set must have.
use vstd::prelude::*;

use crate::error::TrainError;
use crate::layers::{resonance_param_shapes, resonance_shapes};
use crate::shapes::{
    check_table, is_first_mismatch, linear_shapes, shape_table_is, table_matches, ParamShape,
};

verus! {

/// The outcome of the model's size checks, in the order they are made.
pub open spec fn model_dims_spec(
    n_resonances: usize,
    n_dims: usize,
    n_concepts: usize,
    n_layers: usize,
    n_steps: usize,
) -> Result<(), TrainError> {
    if n_resonances == 0 {
        Err(TrainError::EmptyBand { name: "resonances" })
    } else if n_dims == 0 {
        Err(TrainError::EmptyBand { name: "dims" })
    } else if n_concepts == 0 {
        Err(TrainError::EmptyBand { name: "concepts" })
    } else if n_layers == 0 {
        Err(TrainError::InvalidStepCount { name: "n_layers", value: n_layers })
    } else if n_steps == 0 {
        Err(TrainError::InvalidStepCount { name: "n_steps", value: n_steps })
    } else {
        Ok(())
    }
}

/// Check the model's sizes: resonance count, input width and concept count
/// must be positive ([`TrainError::EmptyBand`]), then the layer and
/// integration-step counts ([`TrainError::InvalidStepCount`]).
pub fn validate_model_dims(
    n_resonances: usize,
    n_dims: usize,
    n_concepts: usize,
    n_layers: usize,
    n_steps: usize,
) -> (r: Result<(), TrainError>)
    ensures
        r == model_dims_spec(n_resonances, n_dims, n_concepts, n_layers, n_steps),
{
    if n_resonances == 0 {
        return Err(TrainError::EmptyBand { name: "resonances" });
    }
    if n_dims == 0 {
        return Err(TrainError::EmptyBand { name: "dims" });
    }
    if n_concepts == 0 {
        return Err(TrainError::EmptyBand { name: "concepts" });
    }
    if n_layers == 0 {
        return Err(TrainError::InvalidStepCount { name: "n_layers", value: n_layers });
    }
    if n_steps == 0 {
        return Err(TrainError::InvalidStepCount { name: "n_steps", value: n_steps });
    }
    Ok(())
}

/// Check that a model of `n_layers` layers has `n_layers - 1` stacked
/// resonance layers (after its input layer) and `n_layers` layer norms.
///
/// A wrong count is a [`TrainError::ShapeMismatch`] named `"stacked_layers"`
/// or `"layer_norms"` (stacked layers first) with the expected and actual
/// counts as one-element shapes.
pub fn check_layer_counts(n_layers: usize, n_stacked: usize, n_layer_norms: usize) -> (r: Result<
    (),
    TrainError,
>)
    requires
        n_layers >= 1,
    ensures
        r is Ok <==> n_stacked == n_layers - 1 && n_layer_norms == n_layers,
        r matches Err(e) ==> if n_stacked != n_layers - 1 {
            e matches TrainError::ShapeMismatch { name, expected, got } && name == "stacked_layers"
                && expected@ == seq![(n_layers - 1) as usize] && got@ == seq![n_stacked]
        } else {
            e matches TrainError::ShapeMismatch { name, expected, got } && name == "layer_norms"
                && expected@ == seq![n_layers] && got@ == seq![n_layer_norms]
        },
{
    if n_stacked != n_layers - 1 {
        let expected = vec![n_layers - 1];
        let got = vec![n_stacked];
        assert(expected@ =~= seq![(n_layers - 1) as usize]);
        assert(got@ =~= seq![n_stacked]);
        return Err(TrainError::ShapeMismatch { name: "stacked_layers", expected, got });
    }
    if n_layer_norms != n_layers {
        let expected = vec![n_layers];
        let got = vec![n_layer_norms];
        assert(expected@ =~= seq![n_layers]);
        assert(got@ =~= seq![n_layer_norms]);
        return Err(TrainError::ShapeMismatch { name: "layer_norms", expected, got });
    }
    Ok(())
}

/// Shapes of a layer norm over `n` resonances: `gamma`, then `beta`, each
/// `[n]`.
pub open spec fn layer_norm_shapes(n: usize) -> Seq<(&'static str, Seq<usize>)> {
    seq![("layer_norm.gamma", seq![n]), ("layer_norm.beta", seq![n])]
}

/// Shapes of the concept head mapping `n` resonances to `c` concepts:
/// weight `[c, n]`, then bias `[c]`.
pub open spec fn concept_head_shapes(n: usize, c: usize) -> Seq<(&'static str, Seq<usize>)> {
    linear_shapes("concept_proj", c, n)
}

/// The parameter shapes of one of the model's layer norms, in the order
/// they are checked.
pub fn layer_norm_param_shapes(n_resonances: usize) -> (r: Vec<ParamShape>)
    ensures
        shape_table_is(r@, layer_norm_shapes(n_resonances)),
{
    let n = n_resonances;
    let r = vec![
        ParamShape { name: "layer_norm.gamma", dims: vec![n] },
        ParamShape { name: "layer_norm.beta", dims: vec![n] },
    ];
    assert(r@[0].dims@ =~= seq![n]);
    assert(r@[1].dims@ =~= seq![n]);
    r
}

/// The parameter shapes of the model's concept head, in the order they are
/// checked.
pub fn concept_head_param_shapes(n_resonances: usize, n_concepts: usize) -> (r: Vec<ParamShape>)
    ensures
        shape_table_is(r@, concept_head_shapes(n_resonances, n_concepts)),
{
    let (n, c) = (n_resonances, n_concepts);
    let r = vec![
        ParamShape { name: "concept_proj", dims: vec![c, n] },
        ParamShape { name: "concept_proj", dims: vec![c] },
    ];
    assert(r@[0].dims@ =~= seq![c, n]);
    assert(r@[1].dims@ =~= seq![c]);
    r
}

/// Every parameter list of `lists` has the shapes `expected` lists.
pub open spec fn all_match(expected: Seq<(&'static str, Seq<usize>)>, lists: Seq<Vec<Vec<usize>>>) -> bool {
    forall|i: int| 0 <= i < lists.len() ==> table_matches(expected, #[trigger] lists[i]@)
}

/// `e` reports the first mismatch of the first parameter list of `lists`
/// that does not have the shapes `expected` lists.
pub open spec fn is_first_list_mismatch(
    expected: Seq<(&'static str, Seq<usize>)>,
    lists: Seq<Vec<Vec<usize>>>,
    e: TrainError,
) -> bool {
    exists|i: int|
        0 <= i < lists.len() && (forall|j: int|
            0 <= j < i ==> table_matches(expected, #[trigger] lists[j]@)) && !table_matches(
            expected,
            lists[i]@,
        ) && is_first_mismatch(expected, lists[i]@, e)
}

/// A full parameter set of a model with `n` resonances, `d` input features,
/// `c` concepts and `n_layers` layers has the shapes the model is built
/// from: an input layer over `d` features, `n_layers - 1` stacked layers
/// over `n` features, `n_layers` layer norms and the concept head.
pub open spec fn model_params_match(
    n: usize,
    d: usize,
    c: usize,
    n_layers: usize,
    input: Seq<Vec<usize>>,
    stacked: Seq<Vec<Vec<usize>>>,
    norms: Seq<Vec<Vec<usize>>>,
    head: Seq<Vec<usize>>,
) -> bool {
    &&& stacked.len() == n_layers - 1
    &&& norms.len() == n_layers
    &&& table_matches(resonance_shapes(n, d), input)
    &&& all_match(resonance_shapes(n, n), stacked)
    &&& all_match(layer_norm_shapes(n), norms)
    &&& table_matches(concept_head_shapes(n, c), head)
}

/// Check a model's explicit parameter set, given by the dimension lists of
/// its tensors, in the order the model checks it: the stacked-layer and
/// layer-norm counts, the input layer (`n_resonances` oscillators over
/// `n_dims` features), each stacked layer (over `n_resonances` features),
/// each layer norm, then the concept head.
///
/// Each resonance layer lists its five tensors (coupling, decay, input
/// projection, modulation, base frequency), each layer norm its two (gamma,
/// beta) and the head its two (weight, bias). The first failing check is
/// reported.
pub fn check_model_params(
    n_resonances: usize,
    n_dims: usize,
    n_concepts: usize,
    n_layers: usize,
    input_layer: &[Vec<usize>],
    stacked: &[Vec<Vec<usize>>],
    layer_norms: &[Vec<Vec<usize>>],
    concept_proj: &[Vec<usize>],
) -> (r: Result<(), TrainError>)
    requires
        n_layers >= 1,
        input_layer@.len() == 5,
        forall|i: int| 0 <= i < stacked@.len() ==> (#[trigger] stacked@[i])@.len() == 5,
        forall|i: int| 0 <= i < layer_norms@.len() ==> (#[trigger] layer_norms@[i])@.len() == 2,
        concept_proj@.len() == 2,
    ensures
        r is Ok <==> model_params_match(
            n_resonances,
            n_dims,
            n_concepts,
            n_layers,
            input_layer@,
            stacked@,
            layer_norms@,
            concept_proj@,
        ),
        r matches Err(e) ==> if stacked@.len() != n_layers - 1 {
            e matches TrainError::ShapeMismatch { name, expected, got } && name == "stacked_layers"
                && expected@ == seq![(n_layers - 1) as usize] && got@ == seq![stacked@.len() as usize]
        } else if layer_norms@.len() != n_layers {
            e matches TrainError::ShapeMismatch { name, expected, got } && name == "layer_norms"
                && expected@ == seq![n_layers] && got@ == seq![layer_norms@.len() as usize]
        } else if !table_matches(resonance_shapes(n_resonances, n_dims), input_layer@) {
            is_first_mismatch(resonance_shapes(n_resonances, n_dims), input_layer@, e)
        } else if !all_match(resonance_shapes(n_resonances, n_resonances), stacked@) {
            is_first_list_mismatch(resonance_shapes(n_resonances, n_resonances), stacked@, e)
        } else if !all_match(layer_norm_shapes(n_resonances), layer_norms@) {
            is_first_list_mismatch(layer_norm_shapes(n_resonances), layer_norms@, e)
        } else {
            is_first_mismatch(concept_head_shapes(n_resonances, n_concepts), concept_proj@, e)
        },
{
    check_layer_counts(n_layers, stacked.len(), layer_norms.len())?;
    let n = n_resonances;
    let input_table = resonance_param_shapes(n, n_dims);
    check_table(&input_table, input_layer, Ghost(resonance_shapes(n, n_dims)))?;
    let stacked_table = resonance_param_shapes(n, n);
    let ghost st = resonance_shapes(n, n);
    let mut i: usize = 0;
    while i < stacked.len()
        invariant
            i <= stacked@.len(),
            n == n_resonances,
            n_layers >= 1,
            stacked@.len() == n_layers - 1,
            layer_norms@.len() == n_layers,
            table_matches(resonance_shapes(n, n_dims), input_layer@),
            shape_table_is(stacked_table@, st),
            st == resonance_shapes(n, n),
            forall|k: int| 0 <= k < stacked@.len() ==> (#[trigger] stacked@[k])@.len() == 5,
            forall|j: int| 0 <= j < i ==> table_matches(st, #[trigger] stacked@[j]@),
        decreases stacked.len() - i,
    {
        let res = check_table(&stacked_table, stacked[i].as_slice(), Ghost(st));
        match res {
            Ok(()) => {},
            Err(e) => {
                assert(!all_match(st, stacked@));
                assert(is_first_list_mismatch(st, stacked@, e)) by {
                    assert(0 <= i < stacked@.len() && (forall|j: int|
                        0 <= j < i ==> table_matches(st, #[trigger] stacked@[j]@)) && !table_matches(
                        st,
                        stacked@[i as int]@,
                    ) && is_first_mismatch(st, stacked@[i as int]@, e));
                }
                return Err(e);
            },
        }
        i = i + 1;
    }
    assert(all_match(st, stacked@));
    let norm_table = layer_norm_param_shapes(n);
    let ghost nt = layer_norm_shapes(n);
    let mut j: usize = 0;
    while j < layer_norms.len()
        invariant
            j <= layer_norms@.len(),
            n == n_resonances,
            n_layers >= 1,
            stacked@.len() == n_layers - 1,
            layer_norms@.len() == n_layers,
            table_matches(resonance_shapes(n, n_dims), input_layer@),
            all_match(resonance_shapes(n, n), stacked@),
            shape_table_is(norm_table@, nt),
            nt == layer_norm_shapes(n),
            forall|k: int| 0 <= k < layer_norms@.len() ==> (#[trigger] layer_norms@[k])@.len() == 2,
            forall|k: int| 0 <= k < j ==> table_matches(nt, #[trigger] layer_norms@[k]@),
        decreases layer_norms.len() - j,
    {
        let res = check_table(&norm_table, layer_norms[j].as_slice(), Ghost(nt));
        match res {
            Ok(()) => {},
            Err(e) => {
                assert(!all_match(nt, layer_norms@));
                assert(is_first_list_mismatch(nt, layer_norms@, e)) by {
                    assert(0 <= j < layer_norms@.len() && (forall|k: int|
                        0 <= k < j ==> table_matches(nt, #[trigger] layer_norms@[k]@))
                        && !table_matches(nt, layer_norms@[j as int]@) && is_first_mismatch(
                        nt,
                        layer_norms@[j as int]@,
                        e,
                    ));
                }
                return Err(e);
            },
        }
        j = j + 1;
    }
    assert(all_match(nt, layer_norms@));
    let head_table = concept_head_param_shapes(n, n_concepts);
    check_table(&head_table, concept_proj, Ghost(concept_head_shapes(n, n_concepts)))
}

/// A layer norm over `n` resonances has one gain and one shift per
/// resonance, and the concept head maps the `n` resonances to `c` concepts
/// with one bias entry per concept.
pub proof fn law_norm_and_head_shapes(n: usize, c: usize)
    ensures
        ({
            let t = layer_norm_shapes(n);
            &&& t.len() == 2
            &&& t[0].0 == "layer_norm.gamma" && t[1].0 == "layer_norm.beta"
            &&& t[0].1 == seq![n] && t[1].1 == t[0].1
        }),
        ({
            let h = concept_head_shapes(n, c);
            &&& h.len() == 2
            &&& h[0].0 == "concept_proj" && h[1].0 == "concept_proj"
            &&& h[0].1.len() == 2 && h[0].1[0] == c && h[0].1[1] == n
            &&& h[1].1 == seq![h[0].1[0]]
        }),
{
}

/// The model accepts exactly positive resonance, input and concept counts
/// and positive layer and step counts. The first zero among them is
/// reported: the three sizes as empty bands (`"resonances"`, `"dims"`,
/// `"concepts"`), the two counts as step counts (`"n_layers"`, `"n_steps"`).
pub proof fn law_model_dims(n: usize, d: usize, c: usize, layers: usize, steps: usize)
    ensures
        model_dims_spec(n, d, c, layers, steps) is Ok <==> (n > 0 && d > 0 && c > 0 && layers > 0
            && steps > 0),
        n == 0 ==> model_dims_spec(n, d, c, layers, steps) == Err::<(), TrainError>(
            TrainError::EmptyBand { name: "resonances" },
        ),
        n > 0 && d == 0 ==> model_dims_spec(n, d, c, layers, steps) == Err::<(), TrainError>(
            TrainError::EmptyBand { name: "dims" },
        ),
        n > 0 && d > 0 && c == 0 ==> model_dims_spec(n, d, c, layers, steps) == Err::<
            (),
            TrainError,
        >(TrainError::EmptyBand { name: "concepts" }),
        n > 0 && d > 0 && c > 0 && layers == 0 ==> model_dims_spec(n, d, c, layers, steps) == Err::<
            (),
            TrainError,
        >(TrainError::InvalidStepCount { name: "n_layers", value: 0 }),
        n > 0 && d > 0 && c > 0 && layers > 0 && steps == 0 ==> model_dims_spec(
            n,
            d,
            c,
            layers,
            steps,
        ) == Err::<(), TrainError>(TrainError::InvalidStepCount { name: "n_steps", value: 0 }),
{
}

} // verus!
