//! Physical-resource estimation for a cat-qubit processor protected by a
//! one-dimensional repetition code, with Toffoli magic states prepared by
//! heralded fault-tolerant factories.
//!
//! The crate holds the architecture-specific model handed to a generic
//! resource-optimization engine:
//!
//! - the repetition-code parameter space and its cost formulas
//!   ([`code`], [`qubit`]),
//! - the fixed catalog of Toffoli magic-state factories and the
//!   volume-ordered selection rule ([`factories`]),
//! - the logical-resource accumulator that turns circuit execution into
//!   qubit and gate tallies ([`counter`]),
//! - the composition of a generic optimization result with the
//!   architecture's routing-qubit overhead ([`estimates`]).
//!
//! Probabilities and photon numbers are carried as exactly scaled integers;
//! each type documents its scale. The catalog constants are exact in these
//! scales, so the contracts pin the arithmetic down to the unit.

pub use code::CodeParameter;
pub use code::CodeParameterRange;
pub use code::RepetitionCode;
pub use counter::LogicalCounts;
pub use estimates::AliceAndBobEstimates;
pub use factories::ToffoliBuilder;
pub use factories::ToffoliFactory;
pub use qubit::CatQubit;

pub mod code;
pub mod counter;
pub mod estimates;
pub mod factories;
pub mod qubit;
