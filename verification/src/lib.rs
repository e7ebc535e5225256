//! Verified core of the trainable phase-resonance network components.
//!
//! The oscillator layers themselves compute on floating-point tensors; what
//! this crate holds, with machine-checked contracts, is the integer logic
//! around them: hyperparameter and shape validation for every module, the
//! FLOPs/parameter estimator, the phase-to-rate mode strings, the sparse
//! phase-ring neighbourhoods, winner counts, the oscillator-budget
//! apportionment and the identity-tracking tallies.
//!
//! - [`error`]: the shared error type.
//! - [`shapes`]: dimension checks and parameter-shape tables.
//! - [`flops`]: closed-form FLOPs/parameter estimation.
//! - [`autoencoders`], [`activations`], [`energy`], [`hep`], [`inhibition`],
//!   [`inhibition_layers`], [`layers`], [`attention`], [`bands`], [`model`],
//!   [`phase_tracker`], [`dataset`], [`adversarial`], [`allocation`],
//!   [`hierarchical_layers`], [`hybrid`], [`rip`]: per-module configuration
//!   rules.
pub mod activations;
pub mod adversarial;
pub mod allocation;
pub mod attention;
pub mod autoencoders;
pub mod bands;
pub mod dataset;
pub mod energy;
pub mod error;
pub mod flops;
pub mod hep;
pub mod hierarchical_layers;
pub mod hybrid;
pub mod inhibition;
pub mod inhibition_layers;
pub mod layers;
pub mod model;
pub mod phase_tracker;
pub mod rip;
pub mod shapes;

pub use error::TrainError;
