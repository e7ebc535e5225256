use vstd::prelude::*;

verus! {

/// Errors raised by module construction, hyperparameter validation and
/// shape contracts.
///
/// Scalar hyperparameters that are reported alongside an error are carried
/// as their IEEE-754 bit pattern (`value_bits`, as given by `f64::to_bits`),
/// which keeps this error a plain value type.
#[derive(Clone, Debug, PartialEq)]
pub enum TrainError {
    /// A band or oscillator population was configured with zero size.
    EmptyBand { name: &'static str },
    /// A tensor did not have the expected shape.
    ShapeMismatch { name: &'static str, expected: Vec<usize>, got: Vec<usize> },
    /// A scalar hyperparameter was non-finite.
    NonFiniteParameter { name: &'static str, value_bits: u64 },
    /// A timestep was non-finite or non-positive.
    InvalidTimestep { value_bits: u64 },
    /// A tensor contained a non-finite value.
    NonFiniteState { name: &'static str },
    /// A top-`k` winner count was zero.
    InvalidTopK { k: usize },
    /// A sparsity fraction fell outside `(0, 1]`.
    InvalidSparsity { value_bits: u64 },
    /// An equilibrium-propagation nudge strength was non-positive or non-finite.
    InvalidBeta { value_bits: u64 },
    /// An integration step count (or another count that must be positive)
    /// was out of range.
    InvalidStepCount { name: &'static str, value: usize },
    /// An optimizer learning rate was negative or non-finite.
    InvalidLearningRate { value_bits: u64 },
    /// An optimizer momentum factor was negative or non-finite.
    InvalidMomentum { value_bits: u64 },
    /// An optimizer weight-decay coefficient was negative or non-finite.
    InvalidWeightDecay { value_bits: u64 },
    /// A synchronization-penalty weight was negative or non-finite.
    InvalidSyncPenalty { value_bits: u64 },
    /// A critical order-parameter threshold fell outside `[0, 1]`.
    InvalidCriticalOrder { value_bits: u64 },
    /// A target amplitude was non-positive or non-finite.
    InvalidTargetAmplitude { value_bits: u64 },
    /// A minimum learning-rate fraction fell outside `[0, 1]`.
    InvalidRMin { value_bits: u64 },
    /// A synchronization-sensitivity exponent was non-positive or non-finite.
    InvalidAlpha { value_bits: u64 },
    /// A multi-head attention width was not divisible by the head count.
    IndivisibleHeads { d_model: usize, n_heads: usize },
    /// A dropout probability fell outside `[0, 1)`.
    InvalidDropout { value_bits: u64 },
    /// A named fraction hyperparameter fell outside `[0, 1]` or was non-finite.
    InvalidRatio { name: &'static str, value_bits: u64 },
    /// An allocator total-oscillator range was invalid: `min_total < 3` or
    /// `max_total < min_total`.
    InvalidAllocatorRange { min_total: usize, max_total: usize },
    /// A match threshold was non-finite.
    InvalidMatchThreshold { value_bits: u64 },
    /// A hyperparameter that must be finite and strictly positive was not.
    InvalidPositiveParameter { name: &'static str, value_bits: u64 },
    /// An adversarial perturbation budget was non-finite or non-positive.
    InvalidPerturbationBudget { name: &'static str, value_bits: u64 },
}

} // verus!
