//! Repetition code for biased error correction, focused on phase flips.
//!
//! Code parameters are the code distance (a positive odd integer) and the
//! average photon number |α|², enumerated on an integer grid.
//!
//! Fixed model values:
//! - fault-tolerance threshold (κ₁/κ₂)_th = 0.013, stored in thousandths,
//! - logical cycle time of 500 ns per unit of distance (1/κ₂ = 100 ns,
//!   5 rounds per cycle),
//! - iteration maxima: distance 49, |α|² = 30.

use core::cmp::Ordering;
use vstd::prelude::*;

use crate::qubit::CatQubit;

verus! {

/// Largest code distance enumerated by the default parameter space.
pub const MAX_DISTANCE: u64 = 49;

/// Largest average photon number |α|² enumerated by the default parameter
/// space (integer grid).
pub const MAX_MEAN_PHOTONS: u64 = 30;

/// Denominator of the threshold scale: the fault-tolerance threshold is
/// stored in thousandths, so the real value is
/// `p_threshold_thousandths / THRESHOLD_DENOM`.
pub const THRESHOLD_DENOM: u64 = 1000;

/// Fault-tolerance threshold (κ₁/κ₂)_th = 0.013 in thousandths. The value
/// comes from circuit-level simulation of the code; it is not tunable.
pub const DEFAULT_THRESHOLD_THOUSANDTHS: u64 = 13;

/// Nanoseconds of logical cycle time per unit of code distance: one error
/// correction round lasts 5/κ₂ = 500 ns, and a logical cycle is `distance`
/// rounds.
pub const CYCLE_TIME_PER_DISTANCE_NS: u64 = 500;

/// A repetition-code parameter: the code distance and the average photon
/// number |α|² of the cat qubits (on the integer grid the space enumerates).
#[derive(Clone, Copy, PartialEq, Eq, Structural, Debug)]
pub struct CodeParameter {
    /// Code distance; the space enumerates positive odd values.
    pub distance: u64,
    /// Average photon number |α|².
    pub mean_photons: u64,
}

impl CodeParameter {
    /// True of the parameters the default space enumerates: odd distance up
    /// to [`MAX_DISTANCE`], photon number from 1 to [`MAX_MEAN_PHOTONS`].
    pub open spec fn wf(self) -> bool {
        &&& 1 <= self.distance <= MAX_DISTANCE
        &&& self.distance % 2 == 1
        &&& 1 <= self.mean_photons <= MAX_MEAN_PHOTONS
    }

    /// Set new values for the code parameters (distance, |α|²).
    pub fn new(distance: u64, mean_photons: u64) -> (p: CodeParameter)
        ensures
            p.distance == distance,
            p.mean_photons == mean_photons,
    {
        CodeParameter { distance, mean_photons }
    }
}

/// Number of physical qubits of one repetition-code patch: `2 × distance − 1`
/// (`distance` data qubits plus `distance − 1` ancilla qubits).
pub open spec fn spec_physical_qubits(p: CodeParameter) -> int {
    2 * p.distance - 1
}

/// Logical cycle time of one patch in nanoseconds: `500 × distance`.
pub open spec fn spec_logical_cycle_time(p: CodeParameter) -> int {
    CYCLE_TIME_PER_DISTANCE_NS * p.distance
}

/// Whether both derived quantities of a parameter stay representable in the
/// working integer range, so comparisons can be computed.
pub open spec fn spec_comparable(p: CodeParameter) -> bool {
    &&& 1 <= p.distance
    &&& spec_logical_cycle_time(p) <= u64::MAX
}

/// The total order the code model puts on parameters: by physical-qubit
/// count first, then by logical cycle time.
pub open spec fn spec_parameter_order(p1: CodeParameter, p2: CodeParameter) -> Ordering {
    if spec_physical_qubits(p1) < spec_physical_qubits(p2) {
        Ordering::Less
    } else if spec_physical_qubits(p1) > spec_physical_qubits(p2) {
        Ordering::Greater
    } else if spec_logical_cycle_time(p1) < spec_logical_cycle_time(p2) {
        Ordering::Less
    } else if spec_logical_cycle_time(p1) > spec_logical_cycle_time(p2) {
        Ordering::Greater
    } else {
        Ordering::Equal
    }
}

/// Physical qubit count is strictly increasing in the code distance: of two
/// valid parameters, the one with the larger distance costs strictly more
/// physical qubits.
pub proof fn lemma_physical_qubits_strictly_increasing(p1: CodeParameter, p2: CodeParameter)
    requires
        p1.wf(),
        p2.wf(),
        p1.distance < p2.distance,
    ensures
        spec_physical_qubits(p1) < spec_physical_qubits(p2),
{
}

/// Represents a repetition code; stores the fault-tolerance threshold
/// (κ₁/κ₂)_th in thousandths.
#[derive(Clone, Copy, PartialEq, Eq, Structural, Debug)]
pub struct RepetitionCode {
    /// Threshold (κ₁/κ₂)_th in thousandths.
    pub p_threshold_thousandths: u64,
}

impl RepetitionCode {
    /// Default initialization, with the threshold at 0.013.
    pub fn new() -> (c: RepetitionCode)
        ensures
            c.p_threshold_thousandths == DEFAULT_THRESHOLD_THOUSANDTHS,
    {
        RepetitionCode { p_threshold_thousandths: DEFAULT_THRESHOLD_THOUSANDTHS }
    }

    /// The parameter space, seeded at `lower_bound` if one is given, and at
    /// (distance 1, |α|² = 1) otherwise, with the default maxima.
    pub fn code_parameter_range(&self, lower_bound: Option<&CodeParameter>) -> (r:
        CodeParameterRange)
        requires
            lower_bound matches Some(p) ==> 1 <= p.mean_photons <= MAX_MEAN_PHOTONS && 1
                <= p.distance,
        ensures
            r.max_distance == MAX_DISTANCE,
            r.max_mean_photons == MAX_MEAN_PHOTONS,
            match lower_bound {
                Some(p) => r.distance == p.distance && r.mean_photons == p.mean_photons,
                None => r.distance == 1 && r.mean_photons == 1,
            },
            r.wf(),
    {
        CodeParameterRange::new(lower_bound, MAX_DISTANCE, MAX_MEAN_PHOTONS)
    }

    /// Number of physical qubits of one logical patch: `2 × distance − 1`.
    pub fn physical_qubits(&self, parameter: &CodeParameter) -> (r: u64)
        requires
            1 <= parameter.distance,
            spec_physical_qubits(*parameter) <= u64::MAX,
        ensures
            r == spec_physical_qubits(*parameter),
    {
        (parameter.distance - 1) + parameter.distance
    }

    /// One patch encodes exactly one logical qubit.
    pub fn logical_qubits(&self, _parameter: &CodeParameter) -> (r: u64)
        ensures
            r == 1,
    {
        1
    }

    /// Logical cycle time in nanoseconds: `500 × distance` (one round lasts
    /// 5/κ₂ = 500 ns and a cycle is `distance` rounds).
    pub fn logical_cycle_time(&self, _qubit: &CatQubit, parameter: &CodeParameter) -> (r: u64)
        requires
            spec_logical_cycle_time(*parameter) <= u64::MAX,
        ensures
            r == spec_logical_cycle_time(*parameter),
    {
        CYCLE_TIME_PER_DISTANCE_NS * parameter.distance
    }

    /// One step of the smallest-parameter search: fold the next candidate
    /// of the parameter space into the best parameter kept so far. The
    /// caller reports in `acceptable` whether the candidate's logical error
    /// rate met the target; an acceptable candidate replaces the kept one
    /// exactly when nothing was kept yet or it orders strictly below it by
    /// [`spec_parameter_order`]. Because the error rate is not monotonic
    /// over the two-dimensional grid, the caller must fold in the whole
    /// space rather than stop at the first acceptable candidate.
    pub fn select_code_parameter(
        &self,
        qubit: &CatQubit,
        best: Option<CodeParameter>,
        candidate: CodeParameter,
        acceptable: bool,
    ) -> (r: Option<CodeParameter>)
        ensures
            !acceptable ==> r == best,
            acceptable ==> match best {
                None => r == Some(candidate),
                Some(b) => r == if spec_comparable(b) && spec_comparable(candidate)
                    && spec_parameter_order(b, candidate) == Ordering::Greater {
                    Some(candidate)
                } else {
                    Some(b)
                },
            },
    {
        if !acceptable {
            return best;
        }
        match best {
            None => Some(candidate),
            Some(b) => {
                if matches!(self.code_parameter_cmp(qubit, &b, &candidate), Ordering::Greater) {
                    Some(candidate)
                } else {
                    Some(b)
                }
            },
        }
    }

    /// Order two parameters by (physical qubits, logical cycle time),
    /// ascending. Where either side's derived quantities cannot be computed
    /// in the working range, the comparison degrades to `Equal` rather than
    /// failing, to keep search algorithms total.
    pub fn code_parameter_cmp(&self, qubit: &CatQubit, p1: &CodeParameter, p2: &CodeParameter) -> (r:
        Ordering)
        ensures
            spec_comparable(*p1) && spec_comparable(*p2) ==> r == spec_parameter_order(*p1, *p2),
            !(spec_comparable(*p1) && spec_comparable(*p2)) ==> r == Ordering::Equal,
    {
        let comparable1 = 1 <= p1.distance && p1.distance <= u64::MAX / CYCLE_TIME_PER_DISTANCE_NS;
        let comparable2 = 1 <= p2.distance && p2.distance <= u64::MAX / CYCLE_TIME_PER_DISTANCE_NS;
        if comparable1 && comparable2 {
            let qubits1 = self.physical_qubits(p1);
            let qubits2 = self.physical_qubits(p2);
            if qubits1 < qubits2 {
                Ordering::Less
            } else if qubits1 > qubits2 {
                Ordering::Greater
            } else {
                let time1 = self.logical_cycle_time(qubit, p1);
                let time2 = self.logical_cycle_time(qubit, p2);
                if time1 < time2 {
                    Ordering::Less
                } else if time1 > time2 {
                    Ordering::Greater
                } else {
                    Ordering::Equal
                }
            }
        } else {
            Ordering::Equal
        }
    }
}

impl Default for RepetitionCode {
    /// Create a repetition code with its threshold (κ₁/κ₂)_th = 0.013, the
    /// result of circuit-level simulation.
    fn default() -> (c: RepetitionCode)
        ensures
            c.p_threshold_thousandths == DEFAULT_THRESHOLD_THOUSANDTHS,
    {
        RepetitionCode { p_threshold_thousandths: DEFAULT_THRESHOLD_THOUSANDTHS }
    }
}

/// A finite, single-pass enumeration of code parameters: the outer loop
/// steps the distance by 2 (odd distances only), the inner loop steps the
/// photon number by 1 up to its maximum, then the photon number resets to 1.
/// Re-create the range to iterate again.
#[derive(Clone, Copy, PartialEq, Eq, Structural, Debug)]
pub struct CodeParameterRange {
    /// Distance of the next parameter to hand out.
    pub distance: u64,
    /// Photon number |α|² of the next parameter to hand out.
    pub mean_photons: u64,
    /// Largest distance enumerated.
    pub max_distance: u64,
    /// Largest photon number enumerated.
    pub max_mean_photons: u64,
}

impl CodeParameterRange {
    /// Holds between every two calls of [`CodeParameterRange::next`]: the
    /// photon cursor stays on its grid and the distance cursor leaves room
    /// to step by 2.
    pub open spec fn wf(self) -> bool {
        &&& 1 <= self.distance
        &&& 1 <= self.mean_photons <= self.max_mean_photons
        &&& self.max_distance <= u64::MAX - 2
    }

    /// Number of parameters the range will still hand out.
    pub open spec fn remaining(self) -> int {
        if self.distance > self.max_distance {
            0
        } else {
            ((self.max_distance - self.distance) / 2) * self.max_mean_photons + (
            self.max_mean_photons - self.mean_photons + 1)
        }
    }

    /// A fresh range, seeded at `lower_bound` if one is given and at
    /// (distance 1, |α|² = 1) otherwise.
    pub fn new(lower_bound: Option<&CodeParameter>, max_distance: u64, max_mean_photons: u64) -> (r:
        CodeParameterRange)
        requires
            max_distance <= u64::MAX - 2,
            1 <= max_mean_photons,
            lower_bound matches Some(p) ==> 1 <= p.mean_photons <= max_mean_photons && 1
                <= p.distance,
        ensures
            r.max_distance == max_distance,
            r.max_mean_photons == max_mean_photons,
            match lower_bound {
                Some(p) => r.distance == p.distance && r.mean_photons == p.mean_photons,
                None => r.distance == 1 && r.mean_photons == 1,
            },
            r.wf(),
    {
        match lower_bound {
            Some(p) => CodeParameterRange {
                distance: p.distance,
                mean_photons: p.mean_photons,
                max_distance,
                max_mean_photons,
            },
            None => CodeParameterRange {
                distance: 1,
                mean_photons: 1,
                max_distance,
                max_mean_photons,
            },
        }
    }

    /// Hand out the next parameter, or `None` once the distance has passed
    /// its maximum. Each successful call hands out the cursor pair and
    /// advances it; the count of parameters left falls by exactly one.
    pub fn next(&mut self) -> (r: Option<CodeParameter>)
        requires
            old(self).wf(),
        ensures
            final(self).wf(),
            final(self).max_distance == old(self).max_distance,
            final(self).max_mean_photons == old(self).max_mean_photons,
            old(self).distance > old(self).max_distance ==> r is None && *final(self) == *old(self),
            old(self).distance <= old(self).max_distance ==> r == Some(
                CodeParameter { distance: old(self).distance, mean_photons: old(self).mean_photons },
            ),
            old(self).distance <= old(self).max_distance ==> if old(self).mean_photons == old(
                self,
            ).max_mean_photons {
                final(self).distance == old(self).distance + 2 && final(self).mean_photons == 1
            } else {
                final(self).distance == old(self).distance && final(self).mean_photons == old(
                    self,
                ).mean_photons + 1
            },
            r is Some <==> old(self).remaining() > 0,
            r is Some ==> final(self).remaining() == old(self).remaining() - 1,
            r is None ==> final(self).remaining() == 0,
    {
        if self.distance > self.max_distance {
            None
        } else {
            let result = CodeParameter { distance: self.distance, mean_photons: self.mean_photons };
            proof {
                lemma_remaining_positive(*self);
            }
            if self.mean_photons == self.max_mean_photons {
                proof {
                    lemma_remaining_after_distance_step(*self);
                }
                self.distance = self.distance + 2;
                self.mean_photons = 1;
            } else {
                self.mean_photons = self.mean_photons + 1;
            }
            Some(result)
        }
    }
}

/// A range whose distance cursor has not passed its maximum still has at
/// least one parameter to hand out.
proof fn lemma_remaining_positive(r: CodeParameterRange)
    requires
        r.wf(),
        r.distance <= r.max_distance,
    ensures
        r.remaining() >= r.max_mean_photons - r.mean_photons + 1,
        r.remaining() > 0,
{
    let steps = (r.max_distance - r.distance) / 2;
    assert(steps * r.max_mean_photons >= 0) by (nonlinear_arith)
        requires
            steps >= 0,
            r.max_mean_photons >= 1,
    ;
}

/// Stepping the distance by 2 and resetting the photon cursor to 1 trades
/// the one parameter just handed out for a full fresh photon row: the count
/// of parameters left falls by exactly one.
proof fn lemma_remaining_after_distance_step(r: CodeParameterRange)
    requires
        r.wf(),
        r.distance <= r.max_distance,
        r.mean_photons == r.max_mean_photons,
    ensures
        (CodeParameterRange {
            distance: (r.distance + 2) as u64,
            mean_photons: 1,
            ..r
        }).remaining() == r.remaining() - 1,
{
    let stepped = CodeParameterRange { distance: (r.distance + 2) as u64, mean_photons: 1, ..r };
    if r.distance + 2 > r.max_distance {
        assert((r.max_distance - r.distance) / 2 == 0);
        assert(r.remaining() == 1);
        assert(stepped.remaining() == 0);
    } else {
        let steps = (r.max_distance - r.distance) / 2;
        assert((r.max_distance - (r.distance + 2)) / 2 == steps - 1);
        assert(stepped.remaining() == (steps - 1) * r.max_mean_photons + r.max_mean_photons);
        assert((steps - 1) * r.max_mean_photons + r.max_mean_photons == steps * r.max_mean_photons)
            by (nonlinear_arith);
        assert(r.remaining() == steps * r.max_mean_photons + 1);
    }
}

/// The default parameter space — distance 1 to 49 odd, |α|² from 1 to 30 —
/// holds exactly 25 × 30 = 750 parameters.
pub proof fn lemma_default_range_count(r: CodeParameterRange)
    requires
        r.distance == 1,
        r.mean_photons == 1,
        r.max_distance == MAX_DISTANCE,
        r.max_mean_photons == MAX_MEAN_PHOTONS,
    ensures
        r.remaining() == 750,
{
}

} // verus!
