//! Composition of a generic optimization result into the final physical
//! resource figures for this architecture.
//!
//! The optimization engine reports its chosen configuration as plain counts;
//! this module adds the architecture-specific "vertical" routing qubits
//! needed for all-to-all connectivity across the compute and factory
//! regions, and derives the fraction of qubits spent on factories.

use vstd::prelude::*;

verus! {

/// Vertical-routing multiplier per factory copy: each copy counts as 5
/// routed logical qubits in the all-to-all connectivity requirement.
pub const FACTORY_ROUTING_MULTIPLIER: u64 = 5;

/// A physical-resource estimate for this architecture, as plain counts read
/// off a generic optimization result. The estimate is a read-only view:
/// its methods derive figures and never change it.
#[derive(Clone, Copy, PartialEq, Eq, Structural, Debug)]
pub struct AliceAndBobEstimates {
    /// Physical qubits of the chosen configuration before vertical routing
    /// qubits are added (compute patches and factory copies).
    pub base_physical_qubits: u64,
    /// Logical qubits after mapping, "horizontal" routing qubits included.
    pub routed_logical_qubits: u64,
    /// Number of factory copies running in parallel (0 where no magic
    /// states are needed).
    pub factory_copies: u64,
    /// Physical qubits of all factory copies together.
    pub factory_physical_qubits: u64,
}

/// Vertical routing qubits added for all-to-all connectivity:
/// `2 × (3 × (routed logical qubits + 5 × factory copies) − 1)`.
pub open spec fn spec_routing_qubits(e: AliceAndBobEstimates) -> int {
    2 * (3 * (e.routed_logical_qubits + FACTORY_ROUTING_MULTIPLIER * e.factory_copies) - 1)
}

/// Total physical qubits of the estimate, vertical routing included.
pub open spec fn spec_total_physical_qubits(e: AliceAndBobEstimates) -> int {
    e.base_physical_qubits + spec_routing_qubits(e)
}

/// Fraction of physical qubits spent on the factories, in hundredths of a
/// percent, rounded to the nearest (halves up).
pub open spec fn spec_factory_fraction_centipercent(e: AliceAndBobEstimates) -> int {
    (e.factory_physical_qubits * 10_000 + spec_total_physical_qubits(e) / 2)
        / spec_total_physical_qubits(e)
}

impl AliceAndBobEstimates {
    /// The counts a composition works on: at least one routed logical qubit
    /// exists, the factories' qubits are part of the base count, and the
    /// derived totals stay in the working integer range.
    pub open spec fn wf(self) -> bool {
        &&& 1 <= self.routed_logical_qubits
        &&& self.factory_physical_qubits <= self.base_physical_qubits
        &&& spec_total_physical_qubits(self) <= u64::MAX
        &&& self.factory_physical_qubits * 10_000 + spec_total_physical_qubits(self) / 2
            <= u64::MAX
    }

    /// Count the physical qubits of the estimate, the "vertical" routing
    /// qubits included: the engine's count plus
    /// `2 × (3 × (routed logical qubits + 5 × factory copies) − 1)`.
    pub fn physical_qubits(&self) -> (r: u64)
        requires
            self.wf(),
        ensures
            r == spec_total_physical_qubits(*self),
    {
        let additional_routing_qubits = 2 * (3 * (self.routed_logical_qubits
            + FACTORY_ROUTING_MULTIPLIER * self.factory_copies) - 1);
        self.base_physical_qubits + additional_routing_qubits
    }

    /// Percentage of physical qubits allocated to the Toffoli magic-state
    /// factories, in hundredths of a percent (rounded to the nearest).
    pub fn factory_fraction(&self) -> (r: u64)
        requires
            self.wf(),
        ensures
            r == spec_factory_fraction_centipercent(*self),
            r <= 10_000,
    {
        let total = self.physical_qubits();
        let r = (self.factory_physical_qubits * 10_000 + total / 2) / total;
        proof {
            lemma_fraction_bounds(*self);
        }
        r
    }
}

/// The factory fraction is a true percentage: the factories' qubits are
/// part of the total, so the rounded ratio never exceeds 100%.
proof fn lemma_fraction_bounds(e: AliceAndBobEstimates)
    requires
        e.wf(),
    ensures
        0 <= spec_factory_fraction_centipercent(e) <= 10_000,
        e.factory_physical_qubits * 10_000 + spec_total_physical_qubits(e) / 2 <= u64::MAX,
        spec_total_physical_qubits(e) >= 4,
{
    let total = spec_total_physical_qubits(e);
    assert(total >= 4);
    let num = e.factory_physical_qubits * 10_000 + total / 2;
    assert(num <= u64::MAX);
    assert(num / total <= 10_000) by (nonlinear_arith)
        requires
            total >= 4,
            e.factory_physical_qubits <= total,
            num == e.factory_physical_qubits * 10_000 + total / 2,
            total / 2 >= 0,
            2 * (total / 2) <= total,
    ;
    assert(num / total >= 0) by (nonlinear_arith)
        requires
            total >= 4,
            num >= 0,
    ;
}

} // verus!
