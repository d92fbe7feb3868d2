//! Counts of logical qubits and gates.
//!
//! [`LogicalCounts`] accumulates qubit and gate tallies while an external
//! circuit-execution engine drives it gate by gate, and converts the frozen
//! tallies into the overhead figures the optimization engine consumes:
//! logical qubits after routing, logical depth, and magic-state demand.
//!
//! Under this cost model single-qubit gates, measurement and reset are free;
//! every two-qubit gate costs one two-qubit tally; a swap costs three; a
//! Toffoli costs one three-qubit tally.

use vstd::prelude::*;

verus! {

/// Logical depth of one two-qubit gate, in tenths of a logical cycle: the
/// gate costs 2 cycles and its measurement one round out of the 5 a cycle
/// holds, 2.2 cycles in all.
pub const CX_DECICYCLES: u64 = 22;

/// Logical depth of one Toffoli gate, in tenths of a logical cycle: 10.1
/// cycles (3 two-qubit gates, 1.5 more subject to the measurement outcome,
/// and one measurement).
pub const CCX_DECICYCLES: u64 = 101;

/// Counts of logical qubits, two-qubit (CX-like) gates and Toffoli (CCX)
/// gates, plus the free list of released qubit indices kept for reuse.
#[derive(Clone, Debug)]
pub struct LogicalCounts {
    /// Number of distinct logical qubit indices handed out so far.
    pub qubit_count: u64,
    /// Number of two-qubit gates applied.
    pub cx_count: u64,
    /// Number of Toffoli gates applied.
    pub ccx_count: u64,
    /// Indices of released qubits, reused last-in first-out.
    pub free_list: Vec<usize>,
}

/// Logical qubits needed to run the tallied circuit after mapping: the raw
/// qubits plus one "horizontal" routing qubit per pair, plus the one routing
/// qubit between the compute and factory regions.
pub open spec fn spec_logical_qubits(c: LogicalCounts) -> int {
    c.qubit_count + (c.qubit_count + 1) / 2 + 1
}

/// Logical depth of the tallied circuit in cycles: the weighted gate count
/// `2.2 × cx + 10.1 × ccx`, rounded up to a whole cycle.
pub open spec fn spec_logical_depth(c: LogicalCounts) -> int {
    (CX_DECICYCLES * c.cx_count + CCX_DECICYCLES * c.ccx_count + 9) / 10
}

impl LogicalCounts {
    /// Create from given logical qubit and gate counts, with no released
    /// qubits to reuse.
    pub fn new(qubit_count: u64, cx_count: u64, ccx_count: u64) -> (c: LogicalCounts)
        ensures
            c.qubit_count == qubit_count,
            c.cx_count == cx_count,
            c.ccx_count == ccx_count,
            c.free_list@ == Seq::<usize>::empty(),
    {
        LogicalCounts { qubit_count, cx_count, ccx_count, free_list: Vec::new() }
    }

    /// Tally one Toffoli gate.
    pub fn ccx(&mut self, _ctl0: usize, _ctl1: usize, _q: usize)
        requires
            old(self).ccx_count < u64::MAX,
        ensures
            final(self).ccx_count == old(self).ccx_count + 1,
            final(self).qubit_count == old(self).qubit_count,
            final(self).cx_count == old(self).cx_count,
            final(self).free_list == old(self).free_list,
    {
        self.ccx_count = self.ccx_count + 1;
    }

    /// Tally one two-qubit gate.
    pub fn cx(&mut self, _ctl: usize, _q: usize)
        requires
            old(self).cx_count < u64::MAX,
        ensures
            final(self).cx_count == old(self).cx_count + 1,
            final(self).qubit_count == old(self).qubit_count,
            final(self).ccx_count == old(self).ccx_count,
            final(self).free_list == old(self).free_list,
    {
        self.cx_count = self.cx_count + 1;
    }

    /// A controlled-Y costs the same as any two-qubit gate.
    pub fn cy(&mut self, _ctl: usize, _q: usize)
        requires
            old(self).cx_count < u64::MAX,
        ensures
            final(self).cx_count == old(self).cx_count + 1,
            final(self).qubit_count == old(self).qubit_count,
            final(self).ccx_count == old(self).ccx_count,
            final(self).free_list == old(self).free_list,
    {
        self.cx_count = self.cx_count + 1;
    }

    /// A controlled-Z costs the same as any two-qubit gate.
    pub fn cz(&mut self, _ctl: usize, _q: usize)
        requires
            old(self).cx_count < u64::MAX,
        ensures
            final(self).cx_count == old(self).cx_count + 1,
            final(self).qubit_count == old(self).qubit_count,
            final(self).ccx_count == old(self).ccx_count,
            final(self).free_list == old(self).free_list,
    {
        self.cx_count = self.cx_count + 1;
    }

    /// A swap costs three two-qubit gates.
    pub fn swap(&mut self, _q0: usize, _q1: usize)
        requires
            old(self).cx_count + 3 <= u64::MAX,
        ensures
            final(self).cx_count == old(self).cx_count + 3,
            final(self).qubit_count == old(self).qubit_count,
            final(self).ccx_count == old(self).ccx_count,
            final(self).free_list == old(self).free_list,
    {
        self.cx_count = self.cx_count + 3;
    }

    /// Single-qubit gates are free under this cost model.
    pub fn h(&mut self, _q: usize)
        ensures
            *final(self) == *old(self),
    {
    }

    /// Measurement is free; the outcome is a fixed placeholder.
    pub fn m(&mut self, _q: usize) -> (r: bool)
        ensures
            *final(self) == *old(self),
            r == false,
    {
        false
    }

    /// Measure-and-reset is free; the outcome is a fixed placeholder.
    pub fn mresetz(&mut self, _q: usize) -> (r: bool)
        ensures
            *final(self) == *old(self),
            r == false,
    {
        false
    }

    /// Reset is free under this cost model.
    pub fn reset(&mut self, _q: usize)
        ensures
            *final(self) == *old(self),
    {
    }

    /// Single-qubit gates are free under this cost model.
    pub fn s(&mut self, _q: usize)
        ensures
            *final(self) == *old(self),
    {
    }

    /// Single-qubit gates are free under this cost model.
    pub fn sadj(&mut self, _q: usize)
        ensures
            *final(self) == *old(self),
    {
    }

    /// Single-qubit gates are free under this cost model.
    pub fn x(&mut self, _q: usize)
        ensures
            *final(self) == *old(self),
    {
    }

    /// Single-qubit gates are free under this cost model.
    pub fn y(&mut self, _q: usize)
        ensures
            *final(self) == *old(self),
    {
    }

    /// Single-qubit gates are free under this cost model.
    pub fn z(&mut self, _q: usize)
        ensures
            *final(self) == *old(self),
    {
    }

    /// Hand out a qubit index: the most recently released one if any is
    /// free (last-in first-out reuse), else a fresh index, growing the qubit
    /// count. The qubit count never decreases.
    pub fn qubit_allocate(&mut self) -> (r: usize)
        requires
            old(self).free_list@.len() == 0 ==> old(self).qubit_count < u64::MAX && old(
                self,
            ).qubit_count <= usize::MAX,
        ensures
            final(self).cx_count == old(self).cx_count,
            final(self).ccx_count == old(self).ccx_count,
            old(self).free_list@.len() > 0 ==> {
                &&& r == old(self).free_list@.last()
                &&& final(self).free_list@ == old(self).free_list@.drop_last()
                &&& final(self).qubit_count == old(self).qubit_count
            },
            old(self).free_list@.len() == 0 ==> {
                &&& r == old(self).qubit_count
                &&& final(self).free_list@ == old(self).free_list@
                &&& final(self).qubit_count == old(self).qubit_count + 1
            },
            final(self).qubit_count >= old(self).qubit_count,
    {
        match self.free_list.pop() {
            Some(qubit) => qubit,
            None => {
                let qubit = self.qubit_count;
                self.qubit_count = self.qubit_count + 1;
                qubit as usize
            },
        }
    }

    /// Put a released qubit index onto the free list for reuse. Releasing
    /// an index that is not currently allocated is the caller's mistake and
    /// is not detected here; the driving engine must guard it.
    pub fn qubit_release(&mut self, q: usize)
        requires
            old(self).free_list@.len() < usize::MAX,
        ensures
            final(self).free_list@ == old(self).free_list@.push(q),
            final(self).qubit_count == old(self).qubit_count,
            final(self).cx_count == old(self).cx_count,
            final(self).ccx_count == old(self).ccx_count,
    {
        self.free_list.push(q);
    }

    /// A qubit is always reported as zero; amplitude data is not tracked.
    pub fn qubit_is_zero(&mut self, _q: usize) -> (r: bool)
        ensures
            *final(self) == *old(self),
            r == true,
    {
        true
    }

    /// Logical qubits needed to run the tallied circuit after mapping,
    /// "horizontal" routing qubits included: `qubits + ⌈qubits/2⌉ + 1`.
    pub fn logical_qubits(&self) -> (r: u64)
        requires
            spec_logical_qubits(*self) <= u64::MAX,
        ensures
            r == spec_logical_qubits(*self),
    {
        let half_up = self.qubit_count / 2 + self.qubit_count % 2;
        self.qubit_count + half_up + 1
    }

    /// Logical depth in cycles: `⌈2.2 × cx + 10.1 × ccx⌉`, or `None` where
    /// the depth does not fit the working integer range.
    pub fn logical_depth(&self) -> (r: Option<u64>)
        ensures
            r is Some <==> spec_logical_depth(*self) <= u64::MAX,
            r matches Some(d) ==> d == spec_logical_depth(*self),
    {
        proof {
            assert(CX_DECICYCLES * (self.cx_count as int) + CCX_DECICYCLES * (self.ccx_count as int)
                <= u128::MAX) by (nonlinear_arith)
                requires
                    self.cx_count <= u64::MAX,
                    self.ccx_count <= u64::MAX,
                    CX_DECICYCLES == 22,
                    CCX_DECICYCLES == 101,
            ;
        }
        let decicycles = CX_DECICYCLES as u128 * self.cx_count as u128 + CCX_DECICYCLES as u128
            * self.ccx_count as u128;
        let depth = (decicycles + 9) / 10;
        if depth <= u64::MAX as u128 {
            Some(depth as u64)
        } else {
            None
        }
    }

    /// Magic-state demand of the tallied circuit: one Toffoli magic state
    /// per Toffoli gate.
    pub fn num_magic_states(&self) -> (r: u64)
        ensures
            r == self.ccx_count,
    {
        self.ccx_count
    }
}

impl Default for LogicalCounts {
    /// Empty tallies: no qubits, no gates, nothing released.
    fn default() -> (c: LogicalCounts)
        ensures
            c.qubit_count == 0,
            c.cx_count == 0,
            c.ccx_count == 0,
            c.free_list@ == Seq::<usize>::empty(),
    {
        LogicalCounts { qubit_count: 0, cx_count: 0, ccx_count: 0, free_list: Vec::new() }
    }
}

} // verus!
