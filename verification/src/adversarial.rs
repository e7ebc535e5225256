//! Adversarial robustness evaluation: the kinds of attack an evaluation runs.
use vstd::prelude::*;

verus! {

/// An adversarial attack applied to the previous frame's detections.
#[derive(Clone, Copy, Debug, PartialEq, Eq, Structural)]
pub enum AttackKind {
    /// Single-step fast gradient sign method.
    Fgsm,
    /// Projected gradient descent with `steps` signed-gradient steps.
    Pgd { steps: usize },
}

} // verus!
