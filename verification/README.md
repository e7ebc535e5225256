# prin_train

Verified core of the trainable phase-resonance network components.

- `src/` is the library, verified with Verus. It holds the integer logic of
  the components: hyperparameter and shape validation (including the ordered
  check of a whole stacked model's parameter set), closed-form FLOPs and
  parameter counts, the phase-to-rate mode strings, sparse phase-ring
  neighbourhoods, winner counts, the oscillator-budget apportionment and the
  identity-tracking tallies, with laws on FLOPs scaling and additivity, mode
  round trips, budget conservation and identity preservation.
- `tests/` exercises the library on concrete values.
- `app/` is ordinary Rust around it: the error type with `std::error::Error`,
  and the configuration, allocation, inhibition and evaluation code that
  checks or computes on `f64` values, calling the verified rules for the
  integer parts.

The oscillator layers, attacks, losses and the synthetic sequence generator
are floating-point tensor computations and are not part of this crate.
