//! Shape contracts: the dimension checks every module runs on the tensors it
//! is built from or fed with, stated over the tensors' dimension lists.
use vstd::prelude::*;

use crate::error::TrainError;

verus! {

/// `e` reports that the tensor `name` had dimensions `got` where `expected`
/// was required.
pub open spec fn is_shape_mismatch(
    e: TrainError,
    name: &'static str,
    expected: Seq<usize>,
    got: Seq<usize>,
) -> bool {
    match e {
        TrainError::ShapeMismatch { name: n, expected: ev, got: gv } => {
            &&& n == name
            &&& ev@ == expected
            &&& gv@ == got
        },
        _ => false,
    }
}

/// The expected dimensions of one named parameter tensor.
#[derive(Clone, Debug, PartialEq)]
pub struct ParamShape {
    /// Name reported when the tensor's shape disagrees.
    pub name: &'static str,
    /// Expected dimensions, outermost first.
    pub dims: Vec<usize>,
}

/// Whether two dimension lists are equal, element by element.
pub fn dims_equal(a: &[usize], b: &[usize]) -> (r: bool)
    ensures
        r == (a@ == b@),
{
    if a.len() != b.len() {
        return false;
    }
    let mut i: usize = 0;
    while i < a.len()
        invariant
            a@.len() == b@.len(),
            i <= a@.len(),
            forall|j: int| 0 <= j < i ==> a@[j] == b@[j],
        decreases a.len() - i,
    {
        if a[i] != b[i] {
            return false;
        }
        i = i + 1;
    }
    assert(a@ =~= b@);
    true
}

/// Check that the tensor `name` has dimensions `expected`.
///
/// Returns `Ok(())` exactly when `got` equals `expected`, and otherwise a
/// [`TrainError::ShapeMismatch`] naming the tensor with both dimension lists.
pub fn check_dims(name: &'static str, got: &[usize], expected: &[usize]) -> (r: Result<
    (),
    TrainError,
>)
    ensures
        r is Ok <==> got@ == expected@,
        r matches Err(e) ==> is_shape_mismatch(e, name, expected@, got@),
{
    if dims_equal(got, expected) {
        Ok(())
    } else {
        Err(
            TrainError::ShapeMismatch {
                name,
                expected: vstd::slice::slice_to_vec(expected),
                got: vstd::slice::slice_to_vec(got),
            },
        )
    }
}

/// The first `n` tensors of `got` have the shapes `expected` asks for.
pub open spec fn shapes_match_upto(expected: Seq<ParamShape>, got: Seq<Vec<usize>>, n: int) -> bool {
    forall|j: int| 0 <= j < n ==> #[trigger] got[j]@ == expected[j].dims@
}

/// Check a list of parameter tensors, by their dimensions, against the
/// shapes a module requires, in order.
///
/// Returns `Ok(())` when every tensor has its expected shape; otherwise the
/// error names the first tensor whose shape differs.
pub fn check_param_shapes(expected: &[ParamShape], got: &[Vec<usize>]) -> (r: Result<
    (),
    TrainError,
>)
    requires
        got@.len() == expected@.len(),
    ensures
        r is Ok <==> shapes_match_upto(expected@, got@, expected@.len() as int),
        r matches Err(e) ==> exists|i: int|
            0 <= i < expected@.len() && shapes_match_upto(expected@, got@, i) && got@[i]@
                != expected@[i].dims@ && is_shape_mismatch(
                e,
                expected@[i].name,
                expected@[i].dims@,
                got@[i]@,
            ),
{
    let mut i: usize = 0;
    while i < expected.len()
        invariant
            got@.len() == expected@.len(),
            i <= expected@.len(),
            shapes_match_upto(expected@, got@, i as int),
        decreases expected.len() - i,
    {
        let res = check_dims(expected[i].name, got[i].as_slice(), expected[i].dims.as_slice());
        match res {
            Ok(()) => {},
            Err(e) => {
                assert(!shapes_match_upto(expected@, got@, expected@.len() as int));
                return Err(e);
            },
        }
        i = i + 1;
    }
    Ok(())
}

/// `table` lists exactly the shapes of `spec`, in order: each entry has the
/// name and the dimensions of the corresponding `(name, dims)` pair.
pub open spec fn shape_table_is(table: Seq<ParamShape>, spec: Seq<(&'static str, Seq<usize>)>) -> bool {
    &&& table.len() == spec.len()
    &&& forall|i: int|
        0 <= i < spec.len() ==> #[trigger] table[i].name == spec[i].0 && table[i].dims@ == spec[i].1
}

/// The shapes of a linear layer named `name` with `in_features`
/// inputs and `out_features` outputs: weight `[out, in]`, then bias `[out]`.
pub open spec fn linear_shapes(name: &'static str, out_features: usize, in_features: usize) -> Seq<
    (&'static str, Seq<usize>),
> {
    seq![(name, seq![out_features, in_features]), (name, seq![out_features])]
}

/// The dimension lists `got` have exactly the shapes `expected` lists.
pub open spec fn table_matches(expected: Seq<(&'static str, Seq<usize>)>, got: Seq<Vec<usize>>) -> bool {
    &&& got.len() == expected.len()
    &&& forall|k: int| 0 <= k < expected.len() ==> #[trigger] got[k]@ == expected[k].1
}

/// `e` reports the first tensor of `got` whose shape differs from the one
/// `expected` lists for it.
pub open spec fn is_first_mismatch(
    expected: Seq<(&'static str, Seq<usize>)>,
    got: Seq<Vec<usize>>,
    e: TrainError,
) -> bool {
    exists|k: int|
        0 <= k < expected.len() && k < got.len() && (forall|j: int|
            0 <= j < k ==> #[trigger] got[j]@ == expected[j].1) && got[k]@ != expected[k].1
            && is_shape_mismatch(e, expected[k].0, expected[k].1, got[k]@)
}

/// Check tensors, by their dimensions, against the shape table `table`
/// that lists the shapes `spec`, in order.
pub(crate) fn check_table(table: &[ParamShape], got: &[Vec<usize>], Ghost(spec): Ghost<
    Seq<(&'static str, Seq<usize>)>,
>) -> (r: Result<(), TrainError>)
    requires
        shape_table_is(table@, spec),
        got@.len() == spec.len(),
    ensures
        r is Ok <==> table_matches(spec, got@),
        r matches Err(e) ==> is_first_mismatch(spec, got@, e),
{
    let r = check_param_shapes(table, got);
    proof {
        assert forall|j: int| 0 <= j < spec.len() implies #[trigger] table@[j].dims@ == spec[j].1 by {
            assert(table@[j].name == spec[j].0);
        }
        if r is Ok {
            assert forall|k: int| 0 <= k < spec.len() implies #[trigger] got@[k]@ == spec[k].1 by {
                assert(got@[k]@ == table@[k].dims@);
            }
        } else {
            let e = r->Err_0;
            let i = choose|i: int|
                0 <= i < table@.len() && shapes_match_upto(table@, got@, i) && got@[i]@
                    != table@[i].dims@ && is_shape_mismatch(
                    e,
                    table@[i].name,
                    table@[i].dims@,
                    got@[i]@,
                );
            assert forall|j: int| 0 <= j < i implies #[trigger] got@[j]@ == spec[j].1 by {
                assert(got@[j]@ == table@[j].dims@);
            }
            assert(!table_matches(spec, got@)) by {
                assert(got@[i]@ != spec[i].1);
            }
        }
    }
    r
}

/// A linear layer's weight has one row per output feature and one column
/// per input feature, and its bias one entry per output feature; both
/// tensors carry the layer's name.
pub proof fn law_linear_shapes(name: &'static str, out_features: usize, in_features: usize)
    ensures
        ({
            let t = linear_shapes(name, out_features, in_features);
            &&& t.len() == 2
            &&& t[0].0 == name && t[1].0 == name
            &&& t[0].1.len() == 2 && t[0].1[0] == out_features && t[0].1[1] == in_features
            &&& t[1].1 == seq![t[0].1[0]]
        }),
{
}

} // verus!
