//! Model for cat qubits.
//!
//! A cat qubit is characterized by its intrinsic physical error rate, the
//! ratio κ₁/κ₂ between the one-photon and two-photon loss rates. The ratio
//! is a small positive real; it is carried here as an exact integer count of
//! parts per billion.

use vstd::prelude::*;

verus! {

/// Denominator of the loss-ratio scale: a ratio is stored in parts per
/// billion, so the real value is `loss_ratio_ppb / LOSS_RATIO_DENOM`.
pub const LOSS_RATIO_DENOM: u64 = 1_000_000_000;

/// Default ratio κ₁/κ₂ = 1e-5, in parts per billion. It is the only value
/// compatible with the precomputed factory catalog.
pub const DEFAULT_LOSS_RATIO_PPB: u64 = 10_000;

/// A cat qubit: stores κ₁/κ₂, the ratio between the one- and two-photon
/// loss rates, in parts per billion.
#[derive(Clone, Copy, PartialEq, Eq, Structural, Debug)]
pub struct CatQubit {
    /// κ₁/κ₂ in parts per billion.
    pub loss_ratio_ppb: u64,
}

impl CatQubit {
    /// Instantiation from the default value κ₁/κ₂ = 1e-5, hard-coded in the
    /// factory catalog's precomputation.
    pub fn new() -> (q: CatQubit)
        ensures
            q.loss_ratio_ppb == DEFAULT_LOSS_RATIO_PPB,
    {
        CatQubit { loss_ratio_ppb: DEFAULT_LOSS_RATIO_PPB }
    }
}

impl Default for CatQubit {
    /// Same qubit as [`CatQubit::new`]: κ₁/κ₂ = 1e-5.
    fn default() -> (q: CatQubit)
        ensures
            q.loss_ratio_ppb == DEFAULT_LOSS_RATIO_PPB,
    {
        CatQubit { loss_ratio_ppb: DEFAULT_LOSS_RATIO_PPB }
    }
}

} // verus!
