//! Toffoli magic-state factories.
//!
//! The factories prepare Toffoli magic states by fault-tolerant, heralded
//! measurement of the state's stabilizers. Their performance figures are an
//! externally precomputed, fixed catalog of 15 entries (internal distances 3
//! to 23); this crate only selects among them, it never derives them. The
//! precomputation hard-codes 1/κ₂ = 100 ns and κ₁/κ₂ = 1e-5.
//!
//! Probabilities are carried as exactly scaled integers: error probabilities
//! in units of 1e-16, acceptance probabilities in units of 1e-5, photon
//! numbers in hundredths. Every catalog figure is exact in these scales.

use vstd::prelude::*;

verus! {

broadcast use vstd::seq_lib::group_filter_ensures, vstd::seq_lib::group_to_multiset_ensures;

/// Denominator of the error-probability scale: an error probability is
/// stored in units of 1e-16, so the real value is
/// `error_probability_e16 / ERROR_PROB_DENOM`.
pub const ERROR_PROB_DENOM: u64 = 10_000_000_000_000_000;

/// Denominator of the acceptance-probability scale (units of 1e-5).
pub const ACCEPTANCE_DENOM: u64 = 100_000;

/// Denominator of the photon-number scale (hundredths).
pub const MEAN_PHOTONS_DENOM: u64 = 100;

/// Numerator of the per-step gate time in nanoseconds: the factory's
/// adiabatic two-qubit gate lasts 89.2/(κ₂ |α|²), i.e. 8920 ns divided by
/// the photon number, with 1/κ₂ = 100 ns.
pub const GATE_TIME_NUMERATOR_NS: u64 = 8_920;

/// One Toffoli magic-state factory: its internal code distance and photon
/// number (both independent of the main code's), its measured error and
/// acceptance probabilities, and the number of steps it runs.
#[derive(Clone, Copy, PartialEq, Eq, Structural, Debug)]
pub struct ToffoliFactory {
    /// Internal code distance of the factory.
    pub code_distance: u64,
    /// Photon number |α|² inside the factory, in hundredths.
    pub mean_photons_hundredths: u64,
    /// Error probability of one prepared magic state, in units of 1e-16.
    pub error_probability_e16: u64,
    /// Heralding acceptance probability, in units of 1e-5.
    pub acceptance_probability_e5: u64,
    /// Number of internal steps of one preparation attempt.
    pub steps: u64,
}

/// Physical qubits of one factory: 4 logical qubits plus 1 "horizontal"
/// routing qubit, each of `2 × distance − 1` physical qubits.
pub open spec fn spec_factory_physical_qubits(f: ToffoliFactory) -> int {
    5 * (2 * f.code_distance - 1)
}

/// Numerator of the factory duration as an exact fraction of nanoseconds:
/// per-step gate time times steps, before dividing by the scaled photon
/// number and acceptance probability.
pub open spec fn spec_duration_num(f: ToffoliFactory) -> int {
    GATE_TIME_NUMERATOR_NS * MEAN_PHOTONS_DENOM * ACCEPTANCE_DENOM * f.steps
}

/// Denominator of the factory duration fraction.
pub open spec fn spec_duration_den(f: ToffoliFactory) -> int {
    f.mean_photons_hundredths * f.acceptance_probability_e5
}

/// Average duration of one heralded magic-state preparation in nanoseconds,
/// retries included: `steps × gate time ÷ |α|² ÷ acceptance`, rounded to the
/// nearest nanosecond (halves away from zero).
pub open spec fn spec_duration(f: ToffoliFactory) -> int {
    (2 * spec_duration_num(f) + spec_duration_den(f)) / (2 * spec_duration_den(f))
}

/// Space-time cost of one factory: physical qubits times duration.
pub open spec fn spec_volume(f: ToffoliFactory) -> int {
    spec_factory_physical_qubits(f) * spec_duration(f)
}

impl ToffoliFactory {
    /// Bounds under which the factory's derived quantities are computable
    /// in the working integer range. Every catalog entry satisfies them.
    pub open spec fn wf(self) -> bool {
        &&& 1 <= self.code_distance <= 10_000
        &&& 1 <= self.mean_photons_hundredths <= 1_000_000
        &&& 1 <= self.acceptance_probability_e5 <= ACCEPTANCE_DENOM
        &&& 1 <= self.steps <= 1_000_000
        &&& self.error_probability_e16 <= ERROR_PROB_DENOM
        &&& spec_volume(self) <= u64::MAX
    }

    /// Error probability of one prepared magic state, in units of 1e-16.
    pub fn error_probability(&self) -> (r: u64)
        ensures
            r == self.error_probability_e16,
    {
        self.error_probability_e16
    }

    /// Physical qubits of one factory: 4 logical qubits plus 1 "horizontal"
    /// routing qubit, each of `2 × distance − 1` physical qubits.
    pub fn physical_qubits(&self) -> (r: u64)
        requires
            self.wf(),
        ensures
            r == spec_factory_physical_qubits(*self),
    {
        5 * (2 * self.code_distance - 1)
    }

    /// Average duration of one preparation in nanoseconds, retries
    /// included, rounded to the nearest nanosecond.
    pub fn duration(&self) -> (r: u64)
        requires
            self.wf(),
        ensures
            r == spec_duration(*self),
    {
        proof {
            lemma_duration_bounds(*self);
        }
        let num = GATE_TIME_NUMERATOR_NS * MEAN_PHOTONS_DENOM * ACCEPTANCE_DENOM * self.steps;
        let den = self.mean_photons_hundredths * self.acceptance_probability_e5;
        (2 * num + den) / (2 * den)
    }

    /// Space-time volume of the factory, retries included: physical qubits
    /// times duration.
    pub fn normalized_volume(&self) -> (r: u64)
        requires
            self.wf(),
        ensures
            r == spec_volume(*self),
    {
        proof {
            lemma_duration_bounds(*self);
        }
        self.physical_qubits() * self.duration()
    }

    /// Each preparation outputs exactly one magic state.
    pub fn num_output_states(&self) -> (r: u64)
        ensures
            r == 1,
    {
        1
    }
}

/// The factory arithmetic stays in the working integer range: for a
/// well-formed factory the duration fraction's parts and the rounded
/// duration itself all fit `u64`.
proof fn lemma_duration_bounds(f: ToffoliFactory)
    requires
        f.wf(),
    ensures
        0 < spec_duration_den(f) <= 100_000_000_000,
        0 <= spec_duration_num(f) <= 89_200_000_000_000_000,
        0 <= spec_duration(f) <= u64::MAX,
        spec_factory_physical_qubits(f) * spec_duration(f) == spec_volume(f),
        1 <= spec_factory_physical_qubits(f) <= 99_995,
{
    let num = spec_duration_num(f);
    let den = spec_duration_den(f);
    assert(0 < den <= 100_000_000_000) by (nonlinear_arith)
        requires
            den == f.mean_photons_hundredths * f.acceptance_probability_e5,
            1 <= f.mean_photons_hundredths <= 1_000_000,
            1 <= f.acceptance_probability_e5 <= 100_000,
    ;
    assert(num <= 89_200_000_000_000_000) by (nonlinear_arith)
        requires
            num == 89_200_000_000 * f.steps,
            f.steps <= 1_000_000,
    ;
    assert(num >= 0) by (nonlinear_arith)
        requires
            num == 89_200_000_000 * f.steps,
            f.steps >= 1,
    ;
    assert(spec_duration(f) <= 2 * num + den) by (nonlinear_arith)
        requires
            spec_duration(f) == (2 * num + den) / (2 * den),
            num >= 0,
            den >= 1,
    ;
    assert(spec_duration(f) >= 0) by (nonlinear_arith)
        requires
            spec_duration(f) == (2 * num + den) / (2 * den),
            num >= 0,
            den >= 1,
    ;
}

/// The fixed factory catalog: 15 precomputed configurations spanning
/// internal distances 3 to 23, ordered as published. Figures are exact in
/// the crate's probability scales.
pub open spec fn catalog() -> Seq<ToffoliFactory> {
    seq![
        ToffoliFactory {
            code_distance: 3,
            mean_photons_hundredths: 375,
            error_probability_e16: 10_500_000_000_000,
            acceptance_probability_e5: 84_000,
            steps: 23,
        },
        ToffoliFactory {
            code_distance: 3,
            mean_photons_hundredths: 508,
            error_probability_e16: 1_020_000_000_000,
            acceptance_probability_e5: 74_500,
            steps: 29,
        },
        ToffoliFactory {
            code_distance: 3,
            mean_photons_hundredths: 532,
            error_probability_e16: 814_000_000_000,
            acceptance_probability_e5: 66_000,
            steps: 35,
        },
        ToffoliFactory {
            code_distance: 5,
            mean_photons_hundredths: 715,
            error_probability_e16: 46_200_000_000,
            acceptance_probability_e5: 45_600,
            steps: 46,
        },
        ToffoliFactory {
            code_distance: 5,
            mean_photons_hundredths: 818,
            error_probability_e16: 7_000_000_000,
            acceptance_probability_e5: 36_200,
            steps: 53,
        },
        ToffoliFactory {
            code_distance: 5,
            mean_photons_hundredths: 838,
            error_probability_e16: 5_360_000_000,
            acceptance_probability_e5: 28_800,
            steps: 60,
        },
        ToffoliFactory {
            code_distance: 7,
            mean_photons_hundredths: 971,
            error_probability_e16: 614_000_000,
            acceptance_probability_e5: 14_800,
            steps: 73,
        },
        ToffoliFactory {
            code_distance: 7,
            mean_photons_hundredths: 1_076,
            error_probability_e16: 84_000_000,
            acceptance_probability_e5: 10_500,
            steps: 81,
        },
        ToffoliFactory {
            code_distance: 7,
            mean_photons_hundredths: 1_106,
            error_probability_e16: 51_600_000,
            acceptance_probability_e5: 7_270,
            steps: 89,
        },
        ToffoliFactory {
            code_distance: 9,
            mean_photons_hundredths: 1_164,
            error_probability_e16: 22_800_000,
            acceptance_probability_e5: 2_620,
            steps: 104,
        },
        ToffoliFactory {
            code_distance: 9,
            mean_photons_hundredths: 1_283,
            error_probability_e16: 2_300_000,
            acceptance_probability_e5: 1_540,
            steps: 113,
        },
        ToffoliFactory {
            code_distance: 9,
            mean_photons_hundredths: 1_344,
            error_probability_e16: 736_000,
            acceptance_probability_e5: 975,
            steps: 122,
        },
        ToffoliFactory {
            code_distance: 19,
            mean_photons_hundredths: 1_735,
            error_probability_e16: 79_000,
            acceptance_probability_e5: 100_000,
            steps: 9_576,
        },
        ToffoliFactory {
            code_distance: 21,
            mean_photons_hundredths: 1_894,
            error_probability_e16: 5_400,
            acceptance_probability_e5: 100_000,
            steps: 14_112,
        },
        ToffoliFactory {
            code_distance: 23,
            mean_photons_hundredths: 2_053,
            error_probability_e16: 374,
            acceptance_probability_e5: 100_000,
            steps: 21_344,
        },
    ]
}

/// The catalog entries meeting a target error probability, in catalog order.
pub open spec fn spec_selected(entries: Seq<ToffoliFactory>, target: u64) -> Seq<ToffoliFactory> {
    entries.filter(|f: ToffoliFactory| f.error_probability_e16 <= target)
}

/// Ascending order by normalized volume.
pub open spec fn sorted_by_volume(s: Seq<ToffoliFactory>) -> bool {
    forall|i: int, j: int| 0 <= i < j < s.len() ==> spec_volume(s[i]) <= spec_volume(s[j])
}

/// Owns the catalog of factories and the cached minimum error probability
/// across all entries. Built once, immutable thereafter.
#[derive(Clone, Debug)]
pub struct ToffoliBuilder {
    /// The factory catalog.
    pub factories: Vec<ToffoliFactory>,
    /// The smallest error probability any catalog entry achieves, in units
    /// of 1e-16.
    pub lowest_error_probability_e16: u64,
}

impl ToffoliBuilder {
    /// The catalog is the fixed table, every entry is computable, and the
    /// cached minimum is the least error probability among the entries.
    pub open spec fn wf(self) -> bool {
        &&& self.factories@ == catalog()
        &&& forall|i: int|
            0 <= i < self.factories@.len() ==> (#[trigger] self.factories@[i]).wf()
        &&& forall|i: int|
            0 <= i < self.factories@.len() ==> (#[trigger] self.factories@[i]).error_probability_e16
                >= self.lowest_error_probability_e16
        &&& exists|i: int|
            0 <= i < self.factories@.len() && (#[trigger] self.factories@[i]).error_probability_e16
                == self.lowest_error_probability_e16
    }

    /// Provide the catalog entries that reach the target error probability,
    /// sorted ascending by normalized volume.
    ///
    /// The target must be achievable: at least the catalog's best entry must
    /// meet it, so the result is never empty and always holds a factory of
    /// the minimum error probability. Requesting a target below the
    /// catalog-wide minimum is a precondition violation, not a recoverable
    /// error. Selection is pure: it reads the fixed catalog and nothing
    /// else.
    pub fn find_factories(&self, output_error_rate: u64) -> (r: Vec<ToffoliFactory>)
        requires
            self.wf(),
            output_error_rate >= self.lowest_error_probability_e16,
        ensures
            forall|i: int|
                0 <= i < r@.len() ==> (#[trigger] r@[i]).error_probability_e16
                    <= output_error_rate,
            forall|i: int| 0 <= i < r@.len() ==> (#[trigger] r@[i]).wf(),
            sorted_by_volume(r@),
            r@.to_multiset() == spec_selected(self.factories@, output_error_rate).to_multiset(),
            r@.len() > 0,
            exists|i: int|
                0 <= i < r@.len() && (#[trigger] r@[i]).error_probability_e16
                    == self.lowest_error_probability_e16,
    {
        let mut result: Vec<ToffoliFactory> = Vec::new();
        let mut idx: usize = 0;
        while idx < self.factories.len()
            invariant
                0 <= idx <= self.factories@.len(),
                self.wf(),
                output_error_rate >= self.lowest_error_probability_e16,
                result@ == spec_selected(self.factories@.take(idx as int), output_error_rate),
                forall|k: int|
                    0 <= k < result@.len() ==> (#[trigger] result@[k]).error_probability_e16
                        <= output_error_rate,
                forall|k: int| 0 <= k < result@.len() ==> (#[trigger] result@[k]).wf(),
            decreases self.factories@.len() - idx,
        {
            let f = self.factories[idx];
            proof {
                lemma_filter_take_step(self.factories@, idx as int, output_error_rate);
            }
            if f.error_probability_e16 <= output_error_rate {
                result.push(f);
            }
            idx = idx + 1;
        }
        proof {
            assert(self.factories@.take(self.factories@.len() as int) =~= self.factories@);
        }
        let ghost unsorted = result@;
        sort_by_volume(&mut result);
        proof {
            let selected = spec_selected(self.factories@, output_error_rate);
            let k = choose|k: int|
                0 <= k < self.factories@.len() && (
                #[trigger] self.factories@[k]).error_probability_e16
                    == self.lowest_error_probability_e16;
            assert(selected.contains(self.factories@[k]));
            assert(result@.to_multiset().count(self.factories@[k]) > 0);
            assert(result@.contains(self.factories@[k]));
            let w = choose|w: int|
                0 <= w < result@.len() && result@[w] == self.factories@[k];
            assert(result@[w].error_probability_e16 == self.lowest_error_probability_e16);
            assert forall|i: int| 0 <= i < result@.len() implies (
            #[trigger] result@[i]).error_probability_e16 <= output_error_rate by {
                let x = result@[i];
                assert(result@.contains(x));
                assert(result@.to_multiset().count(x) > 0);
                assert(unsorted.to_multiset().count(x) > 0);
                assert(unsorted.contains(x));
                let j = choose|j: int| 0 <= j < unsorted.len() && unsorted[j] == x;
                assert(unsorted[j].error_probability_e16 <= output_error_rate);
            }
        }
        result
    }

    /// There is a single species of magic state: the Toffoli state.
    pub fn num_magic_state_types(&self) -> (r: usize)
        ensures
            r == 1,
    {
        1
    }
}

/// Selecting from a one-longer prefix of `entries` extends the selection by
/// the new element exactly when it meets the target.
proof fn lemma_filter_take_step(entries: Seq<ToffoliFactory>, i: int, target: u64)
    requires
        0 <= i < entries.len(),
    ensures
        entries[i].error_probability_e16 <= target ==> spec_selected(entries.take(i + 1), target)
            == spec_selected(entries.take(i), target).push(entries[i]),
        entries[i].error_probability_e16 > target ==> spec_selected(entries.take(i + 1), target)
            == spec_selected(entries.take(i), target),
{
    reveal(Seq::filter);
    let longer = entries.take(i + 1);
    assert(longer.drop_last() =~= entries.take(i));
    assert(longer.last() == entries[i]);
}

/// Sort the factories ascending by normalized volume (insertion sort),
/// keeping exactly the same factories.
fn sort_by_volume(v: &mut Vec<ToffoliFactory>)
    requires
        forall|k: int| 0 <= k < old(v)@.len() ==> (#[trigger] old(v)@[k]).wf(),
    ensures
        sorted_by_volume(final(v)@),
        final(v)@.to_multiset() == old(v)@.to_multiset(),
        final(v)@.len() == old(v)@.len(),
        forall|k: int| 0 <= k < final(v)@.len() ==> (#[trigger] final(v)@[k]).wf(),
{
    let mut i: usize = 0;
    while i < v.len()
        invariant
            0 <= i <= v@.len(),
            v@.len() == old(v)@.len(),
            v@.to_multiset() == old(v)@.to_multiset(),
            forall|k: int| 0 <= k < v@.len() ==> (#[trigger] v@[k]).wf(),
            sorted_by_volume(v@.take(i as int)),
        decreases v@.len() - i,
    {
        proof {
            assert forall|a: int, b: int|
                0 <= a < b <= i as int && b != i as int implies spec_volume(v@[a]) <= spec_volume(
                v@[b],
            ) by {
                assert(v@.take(i as int)[a] == v@[a]);
                assert(v@.take(i as int)[b] == v@[b]);
            }
        }
        let mut j: usize = i;
        while j > 0 && v[j - 1].normalized_volume() > v[j].normalized_volume()
            invariant
                0 <= j <= i < v@.len(),
                v@.len() == old(v)@.len(),
                v@.to_multiset() == old(v)@.to_multiset(),
                forall|k: int| 0 <= k < v@.len() ==> (#[trigger] v@[k]).wf(),
                forall|a: int, b: int|
                    0 <= a < b <= i && b != j ==> spec_volume(v@[a]) <= spec_volume(v@[b]),
            decreases j,
        {
            let ghost before = v@;
            let lower = v[j - 1];
            let upper = v[j];
            v[j - 1] = upper;
            v[j] = lower;
            proof {
                lemma_swap_preserves_multiset(before, v@, j - 1, j as int);
            }
            j = j - 1;
        }
        proof {
            assert forall|a: int, b: int| 0 <= a < b <= i as int implies spec_volume(v@[a])
                <= spec_volume(v@[b]) by {
                if b == j as int {
                    if a < j as int - 1 {
                        assert(spec_volume(v@[a]) <= spec_volume(v@[j - 1]));
                    }
                }
            }
            assert forall|a: int, b: int|
                #![trigger v@.take(i as int + 1)[a], v@.take(i as int + 1)[b]]
                0 <= a < b < i as int + 1 implies spec_volume(v@.take(i as int + 1)[a])
                <= spec_volume(v@.take(i as int + 1)[b]) by {
                assert(v@.take(i as int + 1)[a] == v@[a]);
                assert(v@.take(i as int + 1)[b] == v@[b]);
            }
            assert(sorted_by_volume(v@.take(i as int + 1)));
        }
        i = i + 1;
    }
    proof {
        assert(v@.take(v@.len() as int) =~= v@);
    }
}

/// Exchanging two positions of a sequence leaves its multiset unchanged.
proof fn lemma_swap_preserves_multiset(s1: Seq<ToffoliFactory>, s2: Seq<ToffoliFactory>, a: int, b: int)
    requires
        0 <= a < b < s1.len(),
        s2.len() == s1.len(),
        s2[a] == s1[b],
        s2[b] == s1[a],
        forall|k: int| 0 <= k < s1.len() && k != a && k != b ==> s2[k] == s1[k],
    ensures
        s2.to_multiset() == s1.to_multiset(),
{
    assert(s2 =~= s1.update(a, s1[b]).update(b, s1[a]));
    lemma_update_multiset(s1, a, b);
}

/// Helper for [`lemma_swap_preserves_multiset`]: updating position `a` with
/// the element at `b` and vice versa inserts and removes the same elements.
proof fn lemma_update_multiset(s: Seq<ToffoliFactory>, a: int, b: int)
    requires
        0 <= a < b < s.len(),
    ensures
        s.update(a, s[b]).update(b, s[a]).to_multiset() == s.to_multiset(),
{
    let s1 = s.update(a, s[b]);
    vstd::seq_lib::to_multiset_update(s, a, s[b]);
    vstd::seq_lib::to_multiset_update(s1, b, s[a]);
    assert(s1[b] == s[b]);
    assert(s.contains(s[a]) && s.contains(s[b]));
    assert(s.to_multiset().count(s[a]) > 0 && s.to_multiset().count(s[b]) > 0);
    assert(s1.update(b, s[a]).to_multiset() =~= s.to_multiset());
}

impl Default for ToffoliBuilder {
    /// Build the fixed catalog and cache its minimum error probability.
    fn default() -> (b: ToffoliBuilder)
        ensures
            b.wf(),
            b.factories@ == catalog(),
    {
        let mut factories: Vec<ToffoliFactory> = Vec::new();
        factories.push(
            ToffoliFactory {
                code_distance: 3,
                mean_photons_hundredths: 375,
                error_probability_e16: 10_500_000_000_000,
                acceptance_probability_e5: 84_000,
                steps: 23,
            },
        );
        factories.push(
            ToffoliFactory {
                code_distance: 3,
                mean_photons_hundredths: 508,
                error_probability_e16: 1_020_000_000_000,
                acceptance_probability_e5: 74_500,
                steps: 29,
            },
        );
        factories.push(
            ToffoliFactory {
                code_distance: 3,
                mean_photons_hundredths: 532,
                error_probability_e16: 814_000_000_000,
                acceptance_probability_e5: 66_000,
                steps: 35,
            },
        );
        factories.push(
            ToffoliFactory {
                code_distance: 5,
                mean_photons_hundredths: 715,
                error_probability_e16: 46_200_000_000,
                acceptance_probability_e5: 45_600,
                steps: 46,
            },
        );
        factories.push(
            ToffoliFactory {
                code_distance: 5,
                mean_photons_hundredths: 818,
                error_probability_e16: 7_000_000_000,
                acceptance_probability_e5: 36_200,
                steps: 53,
            },
        );
        factories.push(
            ToffoliFactory {
                code_distance: 5,
                mean_photons_hundredths: 838,
                error_probability_e16: 5_360_000_000,
                acceptance_probability_e5: 28_800,
                steps: 60,
            },
        );
        factories.push(
            ToffoliFactory {
                code_distance: 7,
                mean_photons_hundredths: 971,
                error_probability_e16: 614_000_000,
                acceptance_probability_e5: 14_800,
                steps: 73,
            },
        );
        factories.push(
            ToffoliFactory {
                code_distance: 7,
                mean_photons_hundredths: 1_076,
                error_probability_e16: 84_000_000,
                acceptance_probability_e5: 10_500,
                steps: 81,
            },
        );
        factories.push(
            ToffoliFactory {
                code_distance: 7,
                mean_photons_hundredths: 1_106,
                error_probability_e16: 51_600_000,
                acceptance_probability_e5: 7_270,
                steps: 89,
            },
        );
        factories.push(
            ToffoliFactory {
                code_distance: 9,
                mean_photons_hundredths: 1_164,
                error_probability_e16: 22_800_000,
                acceptance_probability_e5: 2_620,
                steps: 104,
            },
        );
        factories.push(
            ToffoliFactory {
                code_distance: 9,
                mean_photons_hundredths: 1_283,
                error_probability_e16: 2_300_000,
                acceptance_probability_e5: 1_540,
                steps: 113,
            },
        );
        factories.push(
            ToffoliFactory {
                code_distance: 9,
                mean_photons_hundredths: 1_344,
                error_probability_e16: 736_000,
                acceptance_probability_e5: 975,
                steps: 122,
            },
        );
        factories.push(
            ToffoliFactory {
                code_distance: 19,
                mean_photons_hundredths: 1_735,
                error_probability_e16: 79_000,
                acceptance_probability_e5: 100_000,
                steps: 9_576,
            },
        );
        factories.push(
            ToffoliFactory {
                code_distance: 21,
                mean_photons_hundredths: 1_894,
                error_probability_e16: 5_400,
                acceptance_probability_e5: 100_000,
                steps: 14_112,
            },
        );
        factories.push(
            ToffoliFactory {
                code_distance: 23,
                mean_photons_hundredths: 2_053,
                error_probability_e16: 374,
                acceptance_probability_e5: 100_000,
                steps: 21_344,
            },
        );
        proof {
            assert(factories@ =~= catalog());
            lemma_catalog_entries_wf();
        }
        let mut lowest: u64 = factories[0].error_probability_e16;
        let mut idx: usize = 1;
        while idx < factories.len()
            invariant
                1 <= idx <= factories@.len(),
                factories@ == catalog(),
                forall|k: int|
                    0 <= k < idx ==> (#[trigger] factories@[k]).error_probability_e16 >= lowest,
                exists|k: int|
                    0 <= k < idx && (#[trigger] factories@[k]).error_probability_e16 == lowest,
            decreases factories@.len() - idx,
        {
            if factories[idx].error_probability_e16 < lowest {
                lowest = factories[idx].error_probability_e16;
            }
            idx = idx + 1;
        }
        ToffoliBuilder { factories, lowest_error_probability_e16: lowest }
    }
}

/// Every catalog entry is computable in the working integer range.
#[verifier::rlimit(100)]
proof fn lemma_catalog_entries_wf()
    ensures
        forall|i: int| 0 <= i < catalog().len() ==> (#[trigger] catalog()[i]).wf(),
{
    assert(spec_duration_num(catalog()[0]) == 2_051_600_000_000);
    assert(spec_duration_den(catalog()[0]) == 31_500_000);
    lemma_entry_duration(catalog()[0], 65_130, 41_500_000);
    assert(catalog()[0].wf());
    assert(spec_duration_num(catalog()[1]) == 2_586_800_000_000);
    assert(spec_duration_den(catalog()[1]) == 37_846_000);
    lemma_entry_duration(catalog()[1], 68_351, 13_954_000);
    assert(catalog()[1].wf());
    assert(spec_duration_num(catalog()[2]) == 3_122_000_000_000);
    assert(spec_duration_den(catalog()[2]) == 35_112_000);
    lemma_entry_duration(catalog()[2], 88_915, 68_152_000);
    assert(catalog()[2].wf());
    assert(spec_duration_num(catalog()[3]) == 4_103_200_000_000);
    assert(spec_duration_den(catalog()[3]) == 32_604_000);
    lemma_entry_duration(catalog()[3], 125_850, 5_804_000);
    assert(catalog()[3].wf());
    assert(spec_duration_num(catalog()[4]) == 4_727_600_000_000);
    assert(spec_duration_den(catalog()[4]) == 29_611_600);
    lemma_entry_duration(catalog()[4], 159_654, 8_838_800);
    assert(catalog()[4].wf());
    assert(spec_duration_num(catalog()[5]) == 5_352_000_000_000);
    assert(spec_duration_den(catalog()[5]) == 24_134_400);
    lemma_entry_duration(catalog()[5], 221_758, 31_584_000);
    assert(catalog()[5].wf());
    assert(spec_duration_num(catalog()[6]) == 6_511_600_000_000);
    assert(spec_duration_den(catalog()[6]) == 14_370_800);
    lemma_entry_duration(catalog()[6], 453_113, 21_770_000);
    assert(catalog()[6].wf());
    assert(spec_duration_num(catalog()[7]) == 7_225_200_000_000);
    assert(spec_duration_den(catalog()[7]) == 11_298_000);
    lemma_entry_duration(catalog()[7], 639_511, 20_742_000);
    assert(catalog()[7].wf());
    assert(spec_duration_num(catalog()[8]) == 7_938_800_000_000);
    assert(spec_duration_den(catalog()[8]) == 8_040_620);
    lemma_entry_duration(catalog()[8], 987_337, 4_782_740);
    assert(catalog()[8].wf());
    assert(spec_duration_num(catalog()[9]) == 9_276_800_000_000);
    assert(spec_duration_den(catalog()[9]) == 3_049_680);
    lemma_entry_duration(catalog()[9], 3_041_893, 2_561_200);
    assert(catalog()[9].wf());
    assert(spec_duration_num(catalog()[10]) == 10_079_600_000_000);
    assert(spec_duration_den(catalog()[10]) == 1_975_820);
    lemma_entry_duration(catalog()[10], 5_101_477, 1_403_540);
    assert(catalog()[10].wf());
    assert(spec_duration_num(catalog()[11]) == 10_882_400_000_000);
    assert(spec_duration_den(catalog()[11]) == 1_310_400);
    lemma_entry_duration(catalog()[11], 8_304_640, 798_400);
    assert(catalog()[11].wf());
    assert(spec_duration_num(catalog()[12]) == 854_179_200_000_000);
    assert(spec_duration_den(catalog()[12]) == 173_500_000);
    lemma_entry_duration(catalog()[12], 4_923_223, 192_500_000);
    assert(catalog()[12].wf());
    assert(spec_duration_num(catalog()[13]) == 1_258_790_400_000_000);
    assert(spec_duration_den(catalog()[13]) == 189_400_000);
    lemma_entry_duration(catalog()[13], 6_646_201, 50_600_000);
    assert(catalog()[13].wf());
    assert(spec_duration_num(catalog()[14]) == 1_903_884_800_000_000);
    assert(spec_duration_den(catalog()[14]) == 205_300_000);
    lemma_entry_duration(catalog()[14], 9_273_672, 82_100_000);
    assert(catalog()[14].wf());
}

/// Pins the rounded duration of one factory from a concrete quotient `q`
/// and remainder `r` of its duration fraction.
proof fn lemma_entry_duration(f: ToffoliFactory, q: int, r: int)
    requires
        0 < spec_duration_den(f),
        2 * spec_duration_num(f) + spec_duration_den(f) == q * (2 * spec_duration_den(f)) + r,
        0 <= r < 2 * spec_duration_den(f),
    ensures
        spec_duration(f) == q,
{
    vstd::arithmetic::div_mod::lemma_fundamental_div_mod_converse_div(
        2 * spec_duration_num(f) + spec_duration_den(f),
        2 * spec_duration_den(f),
        q,
        r,
    );
}

} // verus!
