//! Optical gain client: the shared mode buffer and the full probe list.
//!
//! An [`OpticalGain`] owns a flat mode-coefficient buffer of `n_mode * 7`
//! entries and the ten probes of the fixed combined configuration. Each tick
//! the caller perturbs every probe's buffer slot (the sinusoid is arithmetic
//! on the concrete scalar and is computed by the caller), the perturbed
//! buffer is written downstream, and whenever a residual vector arrives each
//! probe's filtered history grows by the sample at the probe's slot.

use vstd::prelude::*;

use crate::config::{combined_probe_table, entry_index, lemma_combined_indices_distinct,
    ProbingSignals};
use crate::probe::{filtered_step, fresh_probe, injected_step, lemma_probe_index_in_range,
    probe_index, probe_wf, Probe, ProbeModel};
use vstd::pervasive::VecAdditionalExecFns;

verus! {

/// Mathematical model of an [`OpticalGain`]: the probe list and the mode
/// buffer.
pub ghost struct GainModel<S> {
    pub probes: Seq<Probe<S>>,
    pub data: Seq<S>,
}

/// The per-segment mode count of a gain client: shared by all its probes.
pub open spec fn gain_n_mode<S>(m: GainModel<S>) -> usize {
    m.probes[0]@.n_mode
}

/// Well-formedness of a gain client: at least one probe, every probe
/// well-formed with one shared mode count, the buffer of length
/// `n_mode * 7`, and all probe slots pairwise distinct.
pub open spec fn gain_wf<S>(m: GainModel<S>) -> bool {
    &&& m.probes.len() > 0
    &&& forall|k: int| 0 <= k < m.probes.len() ==> probe_wf((#[trigger] m.probes[k])@)
    &&& forall|k: int|
        0 <= k < m.probes.len() ==> (#[trigger] m.probes[k])@.n_mode == gain_n_mode(m)
    &&& m.data.len() == gain_n_mode(m) * 7
    &&& forall|j: int, k: int|
        0 <= j < k < m.probes.len() ==> probe_index(m.probes[j]@) != probe_index(m.probes[k]@)
}

/// `j` is the slot of one of the probes.
pub open spec fn slot_probed<S>(m: GainModel<S>, j: int) -> bool {
    exists|k: int| 0 <= k < m.probes.len() && j == probe_index(m.probes[k]@)
}

/// The state after a mode vector is read in: the buffer is replaced
/// wholesale, the probes are untouched.
pub open spec fn modes_read<S>(m: GainModel<S>, v: Seq<S>) -> GainModel<S> {
    GainModel { probes: m.probes, data: v }
}

/// What writing the mode buffer downstream exposes: the buffer as it stands.
pub open spec fn modes_write<S>(m: GainModel<S>) -> Seq<S> {
    m.data
}

/// Law: a mode vector read in and then written out, with no injection pass in
/// between, is reproduced exactly.
pub proof fn lemma_read_write_identity<S>(m: GainModel<S>, v: Seq<S>)
    ensures
        modes_write(modes_read(m, v)) == v,
{
}

/// A mutable borrow of the probe at position `k`, with the list pinned to an
/// update at `k` once the borrow resolves.
fn probe_at_mut<S>(probes: &mut Vec<Probe<S>>, k: usize) -> (element: &mut Probe<S>)
    requires
        k < old(probes).len(),
    ensures
        *element == old(probes)@[k as int],
        final(probes)@ == old(probes)@.update(k as int, *final(element)),
{
    &mut probes[k]
}

/// Optical gain client: the fixed probe list and the shared mode buffer.
pub struct OpticalGain<S> {
    probes: Vec<Probe<S>>,
    data: Vec<S>,
}

impl<S> View for OpticalGain<S> {
    type V = GainModel<S>;

    closed spec fn view(&self) -> GainModel<S> {
        GainModel { probes: self.probes@, data: self.data@ }
    }
}

impl<S: Copy> OpticalGain<S> {
    /// Creates a new [`OpticalGain`] instance for the given per-segment mode
    /// count: the ten probes of the fixed combined configuration, over a mode
    /// buffer of `n_mode * 7` entries filled with the supplied baseline
    /// sample. The mode count must exceed every probed mode index, so each
    /// probe's slot lies inside the buffer.
    pub fn new(n_mode: usize, zero: S) -> (r: Self)
        requires
            460 < n_mode,
            n_mode * 7 <= usize::MAX,
        ensures
            gain_wf(r@),
            gain_n_mode(r@) == n_mode,
            r@.probes.len() == combined_probe_table().len(),
            forall|k: int|
                0 <= k < combined_probe_table().len() ==> (#[trigger] r@.probes[k])@
                    == fresh_probe::<S>(
                    combined_probe_table()[k].0,
                    combined_probe_table()[k].1,
                    n_mode,
                    combined_probe_table()[k].2,
                ),
            r@.data.len() == n_mode * 7,
            forall|j: int| 0 <= j < r@.data.len() ==> r@.data[j] == zero,
    {
        let table = ProbingSignals::combined();
        let n = table.len();
        let mut probes: Vec<Probe<S>> = Vec::new();
        let mut k: usize = 0;
        while k < n
            invariant
                n == combined_probe_table().len(),
                table@ == combined_probe_table(),
                460 < n_mode,
                n_mode * 7 <= usize::MAX,
                k <= n,
                probes@.len() == k,
                forall|t: int|
                    0 <= t < k ==> (#[trigger] probes@[t])@ == fresh_probe::<S>(
                        combined_probe_table()[t].0,
                        combined_probe_table()[t].1,
                        n_mode,
                        combined_probe_table()[t].2,
                    ),
            decreases n - k,
        {
            let entry = table.get(k);
            assert(1 <= entry.0 <= 7 && entry.1 <= 460);
            let probe = Probe::new(entry.0, entry.1, n_mode, entry.2);
            probes.push(probe);
            k = k + 1;
        }
        let len = n_mode * 7;
        let mut data: Vec<S> = Vec::new();
        let mut j: usize = 0;
        while j < len
            invariant
                j <= len,
                data@.len() == j,
                forall|t: int| 0 <= t < j ==> data@[t] == zero,
            decreases len - j,
        {
            data.push(zero);
            j = j + 1;
        }
        let r = OpticalGain { probes, data };
        proof {
            lemma_combined_indices_distinct(n_mode);
            assert forall|a: int, b: int| 0 <= a < b < r@.probes.len() implies probe_index(
                r@.probes[a]@,
            ) != probe_index(r@.probes[b]@) by {
                assert(probe_index(r@.probes[a]@) == entry_index(
                    combined_probe_table()[a],
                    n_mode,
                ));
                assert(probe_index(r@.probes[b]@) == entry_index(
                    combined_probe_table()[b],
                    n_mode,
                ));
            }
        }
        r
    }

    /// Replaces the mode buffer wholesale with an externally supplied mode
    /// vector: the baseline state before this tick's perturbations.
    pub fn read(&mut self, data: Vec<S>)
        requires
            data@.len() == old(self)@.data.len(),
        ensures
            final(self)@ == modes_read(old(self)@, data@),
            gain_wf(old(self)@) ==> gain_wf(final(self)@),
    {
        self.data = data;
    }

    /// Exposes the current (perturbed) mode buffer to the downstream loop.
    pub fn write(&self) -> (r: Vec<S>)
        ensures
            r@ == modes_write(self@),
    {
        let len = self.data.len();
        let mut out: Vec<S> = Vec::new();
        let mut j: usize = 0;
        while j < len
            invariant
                j <= len,
                len == self.data@.len(),
                out@.len() == j,
                forall|t: int| 0 <= t < j ==> out@[t] == self.data@[t],
            decreases len - j,
        {
            out.push(self.data[j]);
            j = j + 1;
        }
        proof {
            assert(out@ =~= self@.data);
        }
        out
    }

    /// The sample currently held at each probe's buffer slot, probe by probe:
    /// the baseline this tick's perturbations are added to.
    pub fn probe_samples(&self) -> (r: Vec<S>)
        requires
            gain_wf(self@),
        ensures
            r@.len() == self@.probes.len(),
            forall|k: int|
                0 <= k < self@.probes.len() ==> r@[k] == self@.data[probe_index(
                    (#[trigger] self@.probes[k])@,
                )],
    {
        let n = self.probes.len();
        let mut out: Vec<S> = Vec::new();
        let mut k: usize = 0;
        while k < n
            invariant
                gain_wf(self@),
                n == self@.probes.len(),
                k <= n,
                out@.len() == k,
                forall|t: int|
                    0 <= t < k ==> out@[t] == self@.data[probe_index(
                        (#[trigger] self@.probes[t])@,
                    )],
            decreases n - k,
        {
            proof {
                lemma_probe_index_in_range(self@.probes[k as int]@);
            }
            let id = self.probes[k].id();
            out.push(self.data[id]);
            k = k + 1;
        }
        out
    }

    /// Per-tick injection pass. Entry `k` of `perturbed` is the
    /// already-perturbed sample for probe `k`: it overwrites the probe's
    /// buffer slot and is recorded in the probe's injected history, advancing
    /// its sample counter. Buffer entries that no probe drives are untouched.
    /// The sinusoid and the addition onto the baseline are arithmetic on the
    /// concrete scalar, done by the caller; this pass fixes where each sample
    /// lands.
    pub fn update_with(&mut self, perturbed: &Vec<S>)
        requires
            gain_wf(old(self)@),
            perturbed@.len() == old(self)@.probes.len(),
            forall|k: int|
                0 <= k < old(self)@.probes.len() ==> (#[trigger] old(self)@.probes[k])@.i
                    < usize::MAX,
        ensures
            gain_wf(final(self)@),
            final(self)@.probes.len() == old(self)@.probes.len(),
            final(self)@.data.len() == old(self)@.data.len(),
            forall|k: int|
                0 <= k < old(self)@.probes.len() ==> injected_step(
                    old(self)@.probes[k]@,
                    (#[trigger] final(self)@.probes[k])@,
                    perturbed@[k],
                ),
            forall|k: int|
                0 <= k < old(self)@.probes.len() ==> final(self)@.data[probe_index(
                    (#[trigger] old(self)@.probes[k])@,
                )] == perturbed@[k],
            forall|j: int|
                0 <= j < old(self)@.data.len() && !slot_probed(old(self)@, j)
                    ==> final(self)@.data[j] == old(self)@.data[j],
    {
        let n = self.probes.len();
        let mut k: usize = 0;
        while k < n
            invariant
                gain_wf(old(self)@),
                n == old(self)@.probes.len(),
                perturbed@.len() == n,
                forall|t: int|
                    0 <= t < n ==> (#[trigger] old(self)@.probes[t])@.i < usize::MAX,
                k <= n,
                self@.probes.len() == n,
                self@.data.len() == old(self)@.data.len(),
                forall|t: int| k <= t < n ==> #[trigger] self@.probes[t] == old(self)@.probes[t],
                forall|t: int|
                    0 <= t < k ==> injected_step(
                        old(self)@.probes[t]@,
                        (#[trigger] self@.probes[t])@,
                        perturbed@[t],
                    ),
                forall|t: int|
                    0 <= t < k ==> self@.data[probe_index((#[trigger] old(self)@.probes[t])@)]
                        == perturbed@[t],
                forall|j: int|
                    0 <= j < self@.data.len() && !slot_probed(old(self)@, j)
                        ==> #[trigger] self@.data[j] == old(self)@.data[j],
            decreases n - k,
        {
            proof {
                assert(old(self)@.probes[k as int]@.n_mode == gain_n_mode(old(self)@));
                lemma_probe_index_in_range(old(self)@.probes[k as int]@);
            }
            let id = self.probes[k].id();
            proof {
                assert(self@.probes[k as int] == old(self)@.probes[k as int]);
                assert(id as int == probe_index(old(self)@.probes[k as int]@));
            }
            let s = perturbed[k];
            self.data.set(id, s);
            proof {
                assert(slot_probed(old(self)@, id as int));
                assert forall|t: int| 0 <= t < k implies self@.data[probe_index(
                    (#[trigger] old(self)@.probes[t])@,
                )] == perturbed@[t] by {
                    assert(old(self)@.probes[t]@.n_mode == gain_n_mode(old(self)@));
                    lemma_probe_index_in_range(old(self)@.probes[t]@);
                    assert(probe_index(old(self)@.probes[t]@) != id as int);
                }
            }
            let p = probe_at_mut(&mut self.probes, k);
            p.record_injected(s);
            k = k + 1;
        }
        proof {
            assert forall|a: int, b: int| 0 <= a < b < self@.probes.len() implies probe_index(
                self@.probes[a]@,
            ) != probe_index(self@.probes[b]@) by {
                assert(probe_index(self@.probes[a]@) == probe_index(old(self)@.probes[a]@));
                assert(probe_index(self@.probes[b]@) == probe_index(old(self)@.probes[b]@));
            }
        }
    }

    /// Residual ingestion. An empty vector means "no data this tick": every
    /// history is left untouched. A full-length vector appends, for every
    /// probe, the entry at the probe's slot to that probe's filtered history.
    /// The mode buffer itself never changes here.
    pub fn read_residuals(&mut self, data: &Vec<S>)
        requires
            gain_wf(old(self)@),
            data@.len() == 0 || data@.len() == old(self)@.data.len(),
        ensures
            gain_wf(final(self)@),
            final(self)@.data == old(self)@.data,
            final(self)@.probes.len() == old(self)@.probes.len(),
            data@.len() == 0 ==> final(self)@ == old(self)@,
            data@.len() != 0 ==> forall|k: int|
                0 <= k < old(self)@.probes.len() ==> filtered_step(
                    old(self)@.probes[k]@,
                    (#[trigger] final(self)@.probes[k])@,
                    data@[probe_index(old(self)@.probes[k]@)],
                ),
    {
        if data.len() != 0 {
            let n = self.probes.len();
            let mut k: usize = 0;
            while k < n
                invariant
                    gain_wf(old(self)@),
                    n == old(self)@.probes.len(),
                    data@.len() == old(self)@.data.len(),
                    k <= n,
                    self@.probes.len() == n,
                    self@.data == old(self)@.data,
                    forall|t: int|
                        k <= t < n ==> #[trigger] self@.probes[t] == old(self)@.probes[t],
                    forall|t: int|
                        0 <= t < k ==> filtered_step(
                            old(self)@.probes[t]@,
                            (#[trigger] self@.probes[t])@,
                            data@[probe_index(old(self)@.probes[t]@)],
                        ),
                decreases n - k,
            {
                proof {
                    assert(old(self)@.probes[k as int]@.n_mode == gain_n_mode(old(self)@));
                    lemma_probe_index_in_range(old(self)@.probes[k as int]@);
                }
                let id = self.probes[k].id();
                let s = data[id];
                let p = probe_at_mut(&mut self.probes, k);
                p.ingest_filtered(s);
                k = k + 1;
            }
            proof {
                assert forall|a: int, b: int| 0 <= a < b < self@.probes.len() implies probe_index(
                    self@.probes[a]@,
                ) != probe_index(self@.probes[b]@) by {
                    assert(probe_index(self@.probes[a]@) == probe_index(old(self)@.probes[a]@));
                    assert(probe_index(self@.probes[b]@) == probe_index(old(self)@.probes[b]@));
                }
            }
        }
    }

    /// Decides well-formedness of this client, exactly as the contracts state
    /// it, so unverified callers can test it before relying on it.
    pub fn is_well_formed(&self) -> (r: bool)
        ensures
            r == gain_wf(self@),
    {
        let n = self.probes.len();
        if n == 0 {
            return false;
        }
        let mut k: usize = 0;
        while k < n
            invariant
                n == self@.probes.len(),
                k <= n,
                forall|t: int| 0 <= t < k ==> probe_wf((#[trigger] self@.probes[t])@),
            decreases n - k,
        {
            if !self.probes[k].is_well_formed() {
                return false;
            }
            k = k + 1;
        }
        let n_mode = self.probes[0].n_mode();
        let mut k: usize = 0;
        while k < n
            invariant
                n == self@.probes.len(),
                n > 0,
                n_mode == gain_n_mode(self@),
                k <= n,
                forall|t: int| 0 <= t < k ==> (#[trigger] self@.probes[t])@.n_mode == n_mode,
            decreases n - k,
        {
            if self.probes[k].n_mode() != n_mode {
                return false;
            }
            k = k + 1;
        }
        assert(probe_wf(self@.probes[0]@));
        if self.data.len() != n_mode * 7 {
            return false;
        }
        let mut a: usize = 0;
        while a < n
            invariant
                n == self@.probes.len(),
                n > 0,
                a <= n,
                forall|t: int| 0 <= t < n ==> probe_wf((#[trigger] self@.probes[t])@),
                forall|x: int, y: int|
                    0 <= x < y < n && x < a ==> probe_index(self@.probes[x]@) != probe_index(
                        self@.probes[y]@,
                    ),
            decreases n - a,
        {
            let ida = self.probes[a].id();
            let mut b: usize = a + 1;
            while b < n
                invariant
                    n == self@.probes.len(),
                    a < n,
                    a < b <= n,
                    ida == probe_index(self@.probes[a as int]@),
                    forall|t: int| 0 <= t < n ==> probe_wf((#[trigger] self@.probes[t])@),
                    forall|y: int|
                        a < y < b ==> probe_index(self@.probes[a as int]@) != probe_index(
                            self@.probes[y]@,
                        ),
                decreases n - b,
            {
                if self.probes[b].id() == ida {
                    return false;
                }
                b = b + 1;
            }
            a = a + 1;
        }
        true
    }

    /// The number of probes.
    pub fn n_probes(&self) -> (r: usize)
        ensures
            r == self@.probes.len(),
    {
        self.probes.len()
    }

    /// The probe list.
    pub fn probes(&self) -> (r: &Vec<Probe<S>>)
        ensures
            r@ == self@.probes,
    {
        &self.probes
    }
}

} // verus!
