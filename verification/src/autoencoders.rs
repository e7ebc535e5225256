//! Phase-to-rate bottleneck modes and the dense autoencoder baseline's
//! configuration and parameter-shape contract.
use vstd::prelude::*;

use crate::error::TrainError;
use crate::shapes::{linear_shapes, shape_table_is, ParamShape};

verus! {

/// Bit pattern of the quiet NaN (`f64::NAN.to_bits()`) reported as the value
/// of an unrecognised mode string.
pub const NAN_BITS: u64 = 0x7ff8_0000_0000_0000u64;

/// Winner-take-all mode of the phase-to-rate bottleneck.
#[derive(Clone, Copy, Debug, PartialEq, Eq, Structural)]
pub enum PhaseToRateMode {
    /// Temperature-scaled softmax of the instantaneous rates.
    Soft,
    /// Preserve only the `max(1, floor(N * sparsity))` largest rates.
    Hard,
    /// Blend soft and hard outputs.
    Annealed,
}

/// The mode string of `m`.
pub open spec fn mode_name(m: PhaseToRateMode) -> &'static str {
    match m {
        PhaseToRateMode::Soft => "soft",
        PhaseToRateMode::Hard => "hard",
        PhaseToRateMode::Annealed => "annealed",
    }
}

/// The mode a string names, if any.
pub open spec fn mode_of(s: Seq<char>) -> Option<PhaseToRateMode> {
    if s == "soft"@ {
        Some(PhaseToRateMode::Soft)
    } else if s == "hard"@ {
        Some(PhaseToRateMode::Hard)
    } else if s == "annealed"@ {
        Some(PhaseToRateMode::Annealed)
    } else {
        None
    }
}

/// Whether two strings hold the same characters.
fn str_eq(a: &str, b: &str) -> (r: bool)
    ensures
        r == (a@ == b@),
{
    let n = a.unicode_len();
    if n != b.unicode_len() {
        return false;
    }
    let mut i: usize = 0;
    while i < n
        invariant
            n == a@.len(),
            n == b@.len(),
            i <= n,
            forall|j: int| 0 <= j < i ==> a@[j] == b@[j],
        decreases n - i,
    {
        if a.get_char(i) != b.get_char(i) {
            return false;
        }
        i = i + 1;
    }
    assert(a@ =~= b@);
    true
}

impl PhaseToRateMode {
    /// Parse a mode string (`"soft"`, `"hard"`, `"annealed"`).
    ///
    /// An unrecognised string is reported as
    /// [`TrainError::NonFiniteParameter`] named `"mode"` with a NaN value.
    pub fn parse(mode: &str) -> (r: Result<Self, TrainError>)
        ensures
            r matches Ok(m) ==> mode_of(mode@) == Some(m),
            r is Err <==> mode_of(mode@) is None,
            r is Err ==> r == Err::<Self, TrainError>(
                TrainError::NonFiniteParameter { name: "mode", value_bits: NAN_BITS },
            ),
    {
        if str_eq(mode, "soft") {
            Ok(PhaseToRateMode::Soft)
        } else if str_eq(mode, "hard") {
            Ok(PhaseToRateMode::Hard)
        } else if str_eq(mode, "annealed") {
            Ok(PhaseToRateMode::Annealed)
        } else {
            Err(TrainError::NonFiniteParameter { name: "mode", value_bits: NAN_BITS })
        }
    }

    /// The mode string.
    pub fn as_str(&self) -> (r: &'static str)
        ensures
            r == mode_name(*self),
    {
        match self {
            PhaseToRateMode::Soft => "soft",
            PhaseToRateMode::Hard => "hard",
            PhaseToRateMode::Annealed => "annealed",
        }
    }
}

/// Every mode's string parses back to that mode, and a string that parses
/// to a mode is exactly that mode's string.
pub proof fn law_mode_round_trip(m: PhaseToRateMode, s: Seq<char>)
    ensures
        mode_of(mode_name(m)@) == Some(m),
        mode_of(s) == Some(m) ==> s == mode_name(m)@,
{
    reveal_strlit("soft");
    reveal_strlit("hard");
    reveal_strlit("annealed");
    assert("soft"@ != "hard"@ && "soft"@ != "annealed"@ && "hard"@ != "annealed"@) by {
        assert("soft"@[0] != "hard"@[0]);
        assert("soft"@.len() != "annealed"@.len());
        assert("hard"@.len() != "annealed"@.len());
    }
}

/// Each mode string names its own mode: a string parses to the soft mode
/// exactly when it reads `s o f t`, to the hard mode exactly when it reads
/// `h a r d`, and to the annealed mode exactly when it reads
/// `a n n e a l e d`; any other string names no mode. Each mode prints as
/// the string that names it.
pub proof fn law_mode_strings(s: Seq<char>, m: PhaseToRateMode)
    ensures
        mode_of(s) == Some(PhaseToRateMode::Soft) <==> s == seq!['s', 'o', 'f', 't'],
        mode_of(s) == Some(PhaseToRateMode::Hard) <==> s == seq!['h', 'a', 'r', 'd'],
        mode_of(s) == Some(PhaseToRateMode::Annealed) <==> s == seq![
            'a',
            'n',
            'n',
            'e',
            'a',
            'l',
            'e',
            'd',
        ],
        mode_of(s) is None <==> (s != seq!['s', 'o', 'f', 't'] && s != seq!['h', 'a', 'r', 'd'] && s
            != seq!['a', 'n', 'n', 'e', 'a', 'l', 'e', 'd']),
        mode_of(mode_name(m)@) == Some(m),
        m == PhaseToRateMode::Soft ==> mode_name(m)@ == seq!['s', 'o', 'f', 't'],
        m == PhaseToRateMode::Hard ==> mode_name(m)@ == seq!['h', 'a', 'r', 'd'],
        m == PhaseToRateMode::Annealed ==> mode_name(m)@ == seq![
            'a',
            'n',
            'n',
            'e',
            'a',
            'l',
            'e',
            'd',
        ],
{
    reveal_strlit("soft");
    reveal_strlit("hard");
    reveal_strlit("annealed");
    let soft = seq!['s', 'o', 'f', 't'];
    let hard = seq!['h', 'a', 'r', 'd'];
    let annealed = seq!['a', 'n', 'n', 'e', 'a', 'l', 'e', 'd'];
    assert("soft"@ =~= soft);
    assert("hard"@ =~= hard);
    assert("annealed"@ =~= annealed);
    assert(soft != hard) by {
        assert(soft[0] != hard[0]);
    }
    assert(soft.len() != annealed.len());
    assert(hard.len() != annealed.len());
}

/// Validated hyperparameters of the dense-MLP autoencoder baseline.
#[derive(Clone, Debug, PartialEq)]
pub struct DenseAutoencoderConfig {
    /// Input feature dimension.
    pub n_input: usize,
    /// Bottleneck dimension.
    pub n_bottleneck: usize,
    /// Hidden width of the encoder/decoder MLPs.
    pub hidden: usize,
    /// Number of classifier-head classes.
    pub n_classes: usize,
}

/// The result of validating dense-autoencoder dimensions: the first zero
/// dimension, in argument order, is reported by name.
pub open spec fn dense_autoencoder_config_spec(
    n_input: usize,
    n_bottleneck: usize,
    hidden: usize,
    n_classes: usize,
) -> Result<DenseAutoencoderConfig, TrainError> {
    if n_input == 0 {
        Err(TrainError::EmptyBand { name: "n_input" })
    } else if n_bottleneck == 0 {
        Err(TrainError::EmptyBand { name: "n_bottleneck" })
    } else if hidden == 0 {
        Err(TrainError::EmptyBand { name: "hidden" })
    } else if n_classes == 0 {
        Err(TrainError::EmptyBand { name: "n_classes" })
    } else {
        Ok(DenseAutoencoderConfig { n_input, n_bottleneck, hidden, n_classes })
    }
}

/// The outcome of the phase-to-rate autoencoder's size checks: the first
/// zero dimension, in argument order, is reported by name.
pub open spec fn rate_autoencoder_sizes_spec(
    n_input: usize,
    n_oscillators: usize,
    hidden: usize,
    n_classes: usize,
) -> Result<(), TrainError> {
    if n_input == 0 {
        Err(TrainError::EmptyBand { name: "n_input" })
    } else if n_oscillators == 0 {
        Err(TrainError::EmptyBand { name: "n_oscillators" })
    } else if hidden == 0 {
        Err(TrainError::EmptyBand { name: "hidden" })
    } else if n_classes == 0 {
        Err(TrainError::EmptyBand { name: "n_classes" })
    } else {
        Ok(())
    }
}

/// Check the phase-to-rate autoencoder's dimensions: input width,
/// oscillator count, hidden width and class count must all be positive
/// ([`TrainError::EmptyBand`] naming the first zero one).
pub fn validate_rate_autoencoder_sizes(
    n_input: usize,
    n_oscillators: usize,
    hidden: usize,
    n_classes: usize,
) -> (r: Result<(), TrainError>)
    ensures
        r == rate_autoencoder_sizes_spec(n_input, n_oscillators, hidden, n_classes),
{
    if n_input == 0 {
        return Err(TrainError::EmptyBand { name: "n_input" });
    }
    if n_oscillators == 0 {
        return Err(TrainError::EmptyBand { name: "n_oscillators" });
    }
    if hidden == 0 {
        return Err(TrainError::EmptyBand { name: "hidden" });
    }
    if n_classes == 0 {
        return Err(TrainError::EmptyBand { name: "n_classes" });
    }
    Ok(())
}

/// Parameter shapes of a dense autoencoder, in the order they are checked:
/// the two encoder layers, the two decoder layers and the classifier head.
pub open spec fn dense_autoencoder_shapes(c: DenseAutoencoderConfig) -> Seq<
    (&'static str, Seq<usize>),
> {
    linear_shapes("encoder.0", c.hidden, c.n_input) + linear_shapes(
        "encoder.1",
        c.n_bottleneck,
        c.hidden,
    ) + linear_shapes("decoder.0", c.hidden, c.n_bottleneck) + linear_shapes(
        "decoder.1",
        c.n_input,
        c.hidden,
    ) + linear_shapes("classifier", c.n_classes, c.n_bottleneck)
}

impl DenseAutoencoderConfig {
    /// Construct with the default hidden width (`256`) and class count (`10`).
    pub fn new(n_input: usize, n_bottleneck: usize) -> (r: Result<Self, TrainError>)
        ensures
            r == dense_autoencoder_config_spec(n_input, n_bottleneck, 256, 10),
    {
        Self::with_params(n_input, n_bottleneck, 256, 10)
    }

    /// Construct with explicit hyperparameters; a zero dimension is an
    /// [`TrainError::EmptyBand`] naming it.
    pub fn with_params(n_input: usize, n_bottleneck: usize, hidden: usize, n_classes: usize) -> (r:
        Result<Self, TrainError>)
        ensures
            r == dense_autoencoder_config_spec(n_input, n_bottleneck, hidden, n_classes),
    {
        if n_input == 0 {
            return Err(TrainError::EmptyBand { name: "n_input" });
        }
        if n_bottleneck == 0 {
            return Err(TrainError::EmptyBand { name: "n_bottleneck" });
        }
        if hidden == 0 {
            return Err(TrainError::EmptyBand { name: "hidden" });
        }
        if n_classes == 0 {
            return Err(TrainError::EmptyBand { name: "n_classes" });
        }
        Ok(DenseAutoencoderConfig { n_input, n_bottleneck, hidden, n_classes })
    }

    /// The parameter shapes a dense autoencoder of this
    /// configuration is built from, in the order they are checked.
    pub fn param_shapes(&self) -> (r: Vec<ParamShape>)
        ensures
            shape_table_is(r@, dense_autoencoder_shapes(*self)),
    {
        let (ni, nb, h, nc) = (self.n_input, self.n_bottleneck, self.hidden, self.n_classes);
        let r = vec![
            ParamShape { name: "encoder.0", dims: vec![h, ni] },
            ParamShape { name: "encoder.0", dims: vec![h] },
            ParamShape { name: "encoder.1", dims: vec![nb, h] },
            ParamShape { name: "encoder.1", dims: vec![nb] },
            ParamShape { name: "decoder.0", dims: vec![h, nb] },
            ParamShape { name: "decoder.0", dims: vec![h] },
            ParamShape { name: "decoder.1", dims: vec![ni, h] },
            ParamShape { name: "decoder.1", dims: vec![ni] },
            ParamShape { name: "classifier", dims: vec![nc, nb] },
            ParamShape { name: "classifier", dims: vec![nc] },
        ];
        assert(r@[0].dims@ =~= seq![h, ni]);
        assert(r@[1].dims@ =~= seq![h]);
        assert(r@[2].dims@ =~= seq![nb, h]);
        assert(r@[3].dims@ =~= seq![nb]);
        assert(r@[4].dims@ =~= seq![h, nb]);
        assert(r@[5].dims@ =~= seq![h]);
        assert(r@[6].dims@ =~= seq![ni, h]);
        assert(r@[7].dims@ =~= seq![ni]);
        assert(r@[8].dims@ =~= seq![nc, nb]);
        assert(r@[9].dims@ =~= seq![nc]);
        r
    }
}


/// A dense autoencoder is a chain of linear layers: the encoder maps the
/// input through the hidden width to the bottleneck, the decoder maps the
/// bottleneck through the hidden width back to the input width, and the
/// classifier reads the bottleneck. Each layer reads what the one before it
/// writes, and each bias has one entry per output feature.
pub proof fn law_dense_autoencoder_chain(c: DenseAutoencoderConfig)
    ensures
        ({
            let t = dense_autoencoder_shapes(c);
            &&& t.len() == 10
            &&& forall|l: int|
                0 <= l < 5 ==> (#[trigger] t[2 * l].1).len() == 2 && t[2 * l + 1].1 == seq![
                    t[2 * l].1[0],
                ] && t[2 * l + 1].0 == t[2 * l].0
            &&& t[0].1[1] == c.n_input && t[0].1[0] == c.hidden
            &&& t[2].1[1] == t[0].1[0] && t[2].1[0] == c.n_bottleneck
            &&& t[4].1[1] == t[2].1[0] && t[4].1[0] == c.hidden
            &&& t[6].1[1] == t[4].1[0] && t[6].1[0] == c.n_input
            &&& t[8].1[1] == t[2].1[0] && t[8].1[0] == c.n_classes
            &&& t[0].0 == "encoder.0" && t[2].0 == "encoder.1" && t[4].0 == "decoder.0"
            &&& t[6].0 == "decoder.1" && t[8].0 == "classifier"
        }),
{
    let t = dense_autoencoder_shapes(c);
    assert(t =~= seq![
        ("encoder.0", seq![c.hidden, c.n_input]),
        ("encoder.0", seq![c.hidden]),
        ("encoder.1", seq![c.n_bottleneck, c.hidden]),
        ("encoder.1", seq![c.n_bottleneck]),
        ("decoder.0", seq![c.hidden, c.n_bottleneck]),
        ("decoder.0", seq![c.hidden]),
        ("decoder.1", seq![c.n_input, c.hidden]),
        ("decoder.1", seq![c.n_input]),
        ("classifier", seq![c.n_classes, c.n_bottleneck]),
        ("classifier", seq![c.n_classes]),
    ]);
    assert forall|l: int| 0 <= l < 5 implies (#[trigger] t[2 * l].1).len() == 2 && t[2 * l + 1].1
        == seq![t[2 * l].1[0]] && t[2 * l + 1].0 == t[2 * l].0 by {
        if l == 0 {
        } else if l == 1 {
        } else if l == 2 {
        } else if l == 3 {
        } else {
        }
    }
}

/// The dense autoencoder accepts exactly positive input, bottleneck, hidden
/// and class sizes, and then keeps them as given; the first zero, in that
/// order, is reported by its name. The phase-to-rate autoencoder's size rule
/// is the same over input, oscillator, hidden and class sizes.
pub proof fn law_autoencoder_sizes(a: usize, b: usize, h: usize, c: usize)
    ensures
        dense_autoencoder_config_spec(a, b, h, c) is Ok <==> (a > 0 && b > 0 && h > 0 && c > 0),
        dense_autoencoder_config_spec(a, b, h, c) matches Ok(cfg) ==> cfg.n_input == a
            && cfg.n_bottleneck == b && cfg.hidden == h && cfg.n_classes == c,
        a == 0 ==> dense_autoencoder_config_spec(a, b, h, c) == Err::<
            DenseAutoencoderConfig,
            TrainError,
        >(TrainError::EmptyBand { name: "n_input" }),
        a > 0 && b == 0 ==> dense_autoencoder_config_spec(a, b, h, c) == Err::<
            DenseAutoencoderConfig,
            TrainError,
        >(TrainError::EmptyBand { name: "n_bottleneck" }),
        a > 0 && b > 0 && h == 0 ==> dense_autoencoder_config_spec(a, b, h, c) == Err::<
            DenseAutoencoderConfig,
            TrainError,
        >(TrainError::EmptyBand { name: "hidden" }),
        a > 0 && b > 0 && h > 0 && c == 0 ==> dense_autoencoder_config_spec(a, b, h, c) == Err::<
            DenseAutoencoderConfig,
            TrainError,
        >(TrainError::EmptyBand { name: "n_classes" }),
        rate_autoencoder_sizes_spec(a, b, h, c) is Ok <==> (a > 0 && b > 0 && h > 0 && c > 0),
        a == 0 ==> rate_autoencoder_sizes_spec(a, b, h, c) == Err::<(), TrainError>(
            TrainError::EmptyBand { name: "n_input" },
        ),
        a > 0 && b == 0 ==> rate_autoencoder_sizes_spec(a, b, h, c) == Err::<(), TrainError>(
            TrainError::EmptyBand { name: "n_oscillators" },
        ),
        a > 0 && b > 0 && h == 0 ==> rate_autoencoder_sizes_spec(a, b, h, c) == Err::<(), TrainError>(
            TrainError::EmptyBand { name: "hidden" },
        ),
        a > 0 && b > 0 && h > 0 && c == 0 ==> rate_autoencoder_sizes_spec(a, b, h, c) == Err::<
            (),
            TrainError,
        >(TrainError::EmptyBand { name: "n_classes" }),
{
}

} // verus!
