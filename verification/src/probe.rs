//! Single-frequency probe: identity, addressing, and history bookkeeping.
//!
//! A [`Probe`] perturbs one (segment, mode) coefficient of the shared mode
//! buffer and accumulates two sample histories: the post-injection values it
//! drove into the buffer and the loop's filtered response at its slot. The
//! sinusoid itself and the demodulation of the histories are arithmetic on
//! the concrete sample scalar and are supplied by the caller; the rules for
//! how the histories and the sample counter evolve are stated here.

use vstd::prelude::*;

verus! {

/// Mathematical model of a [`Probe`]: its fixed configuration, the two sample
/// histories, and the sample counter.
pub ghost struct ProbeModel<S> {
    /// Segment id, 1 through 7.
    pub sid: u8,
    /// Mode index within the segment, below `n_mode`.
    pub mode: usize,
    /// Per-segment mode count shared by all probes of a run.
    pub n_mode: usize,
    /// Probe frequency in hertz.
    pub frequency: u32,
    /// Post-injection samples, one per tick the probe was driven.
    pub signal: Seq<S>,
    /// Filtered-response samples, one per tick a residual was available.
    pub filtered: Seq<S>,
    /// Sample counter: the number of injections performed so far.
    pub i: nat,
}

/// The combined index `(sid - 1) * n_mode + mode` addressing the probe's slot
/// in the shared mode buffer.
pub open spec fn probe_index<S>(p: ProbeModel<S>) -> int {
    (p.sid - 1) * p.n_mode + p.mode
}

/// Well-formedness of a probe: segment id in range, mode index below the
/// per-segment mode count, the whole buffer length representable, and the
/// injected history in lockstep with the sample counter.
pub open spec fn probe_wf<S>(p: ProbeModel<S>) -> bool {
    &&& 1 <= p.sid <= 7
    &&& p.mode < p.n_mode
    &&& p.n_mode * 7 <= usize::MAX
    &&& p.signal.len() == p.i
}

/// A well-formed probe addresses a slot inside a buffer of `n_mode * 7`
/// entries.
pub proof fn lemma_probe_index_in_range<S>(p: ProbeModel<S>)
    requires
        probe_wf(p),
    ensures
        0 <= probe_index(p) < p.n_mode * 7,
{
    assert((p.sid - 1) * p.n_mode + p.mode < p.n_mode * 7) by (nonlinear_arith)
        requires
            1 <= p.sid <= 7,
            p.mode < p.n_mode,
    ;
    assert(0 <= (p.sid - 1) * p.n_mode) by (nonlinear_arith)
        requires
            1 <= p.sid,
            0 <= p.n_mode,
    ;
}

/// The two probes share segment id, mode index, mode count and frequency.
pub open spec fn same_probe_config<S>(p: ProbeModel<S>, q: ProbeModel<S>) -> bool {
    &&& p.sid == q.sid
    &&& p.mode == q.mode
    &&& p.n_mode == q.n_mode
    &&& p.frequency == q.frequency
}

/// `p` is `q` after recording one post-injection sample `s`: the sample is
/// appended to the injected history, the counter advances, and nothing else
/// moves.
pub open spec fn injected_step<S>(q: ProbeModel<S>, p: ProbeModel<S>, s: S) -> bool {
    &&& same_probe_config(p, q)
    &&& p.signal == q.signal.push(s)
    &&& p.i == q.i + 1
    &&& p.filtered == q.filtered
}

/// `p` is `q` after ingesting one filtered-response sample `s`: the sample is
/// appended to the filtered history and nothing else moves.
pub open spec fn filtered_step<S>(q: ProbeModel<S>, p: ProbeModel<S>, s: S) -> bool {
    &&& same_probe_config(p, q)
    &&& p.filtered == q.filtered.push(s)
    &&& p.signal == q.signal
    &&& p.i == q.i
}

/// `q` after recording one post-injection sample `s`.
pub open spec fn injected_record<S>(q: ProbeModel<S>, s: S) -> ProbeModel<S> {
    ProbeModel { signal: q.signal.push(s), i: q.i + 1, ..q }
}

/// `q` after ingesting one filtered-response sample `s`.
pub open spec fn filtered_record<S>(q: ProbeModel<S>, s: S) -> ProbeModel<S> {
    ProbeModel { filtered: q.filtered.push(s), ..q }
}

/// The probe after a run of ticks, oldest first: each tick records its
/// post-injection sample, then ingests its filtered sample where the residual
/// stream delivered one.
pub open spec fn probe_run<S>(p: ProbeModel<S>, ticks: Seq<(S, Option<S>)>) -> ProbeModel<S>
    decreases ticks.len(),
{
    if ticks.len() == 0 {
        p
    } else {
        let prev = probe_run(p, ticks.drop_last());
        let last = ticks.last();
        let injected = injected_record(prev, last.0);
        if last.1 is Some {
            filtered_record(injected, last.1->0)
        } else {
            injected
        }
    }
}

/// Law: over any run from a fresh probe, the injected history is exactly the
/// sequence of recorded samples and the counter equals their number; and when
/// every tick delivers a residual, the filtered history is exactly the
/// sequence of delivered samples — index for index the same tick as the
/// injected history.
pub proof fn lemma_probe_run_histories<S>(p: ProbeModel<S>, ticks: Seq<(S, Option<S>)>)
    requires
        p.signal.len() == 0,
        p.filtered.len() == 0,
        p.i == 0,
    ensures
        probe_run(p, ticks).signal == ticks.map_values(|t: (S, Option<S>)| t.0),
        probe_run(p, ticks).i == ticks.len(),
        same_probe_config(probe_run(p, ticks), p),
        (forall|k: int| 0 <= k < ticks.len() ==> (#[trigger] ticks[k]).1 is Some) ==> probe_run(
            p,
            ticks,
        ).filtered == ticks.map_values(|t: (S, Option<S>)| t.1->0),
    decreases ticks.len(),
{
    if ticks.len() == 0 {
        assert(probe_run(p, ticks).signal =~= ticks.map_values(|t: (S, Option<S>)| t.0));
        assert(probe_run(p, ticks).filtered =~= ticks.map_values(|t: (S, Option<S>)| t.1->0));
    } else {
        let front = ticks.drop_last();
        lemma_probe_run_histories(p, front);
        assert(ticks.map_values(|t: (S, Option<S>)| t.0) =~= front.map_values(
            |t: (S, Option<S>)| t.0,
        ).push(ticks.last().0));
        if forall|k: int| 0 <= k < ticks.len() ==> (#[trigger] ticks[k]).1 is Some {
            assert(forall|k: int| 0 <= k < front.len() ==> (#[trigger] front[k]).1 is Some);
            assert(ticks.map_values(|t: (S, Option<S>)| t.1->0) =~= front.map_values(
                |t: (S, Option<S>)| t.1->0,
            ).push(ticks.last().1->0));
        }
    }
}

/// A freshly configured probe: empty histories and a zeroed counter.
pub open spec fn fresh_probe<S>(sid: u8, mode: usize, n_mode: usize, frequency: u32) -> ProbeModel<
    S,
> {
    ProbeModel {
        sid,
        mode,
        n_mode,
        frequency,
        signal: Seq::empty(),
        filtered: Seq::empty(),
        i: 0,
    }
}

/// A per-segment mode count keeps the whole buffer length representable
/// exactly when it stays below a seventh of the address space.
pub proof fn lemma_buffer_bound(n: usize)
    ensures
        (n * 7 <= usize::MAX) <==> (n <= usize::MAX / 7),
{
    let m = usize::MAX as int;
    vstd::arithmetic::div_mod::lemma_fundamental_div_mod(m, 7);
    vstd::arithmetic::div_mod::lemma_mod_bound(m, 7);
    if n <= m / 7 {
        vstd::arithmetic::mul::lemma_mul_inequality(n as int, m / 7, 7);
    }
    if n * 7 <= m {
        vstd::arithmetic::div_mod::lemma_div_is_ordered(n as int * 7, m, 7);
        vstd::arithmetic::div_mod::lemma_div_multiples_vanish_fancy(n as int, 0, 7);
    }
}

/// Optical gain probe signal for one (segment, mode) pair.
pub struct Probe<S> {
    sid: u8,
    mode: usize,
    n_mode: usize,
    frequency: u32,
    signal: Vec<S>,
    filtered: Vec<S>,
    i: usize,
}

impl<S> View for Probe<S> {
    type V = ProbeModel<S>;

    closed spec fn view(&self) -> ProbeModel<S> {
        ProbeModel {
            sid: self.sid,
            mode: self.mode,
            n_mode: self.n_mode,
            frequency: self.frequency,
            signal: self.signal@,
            filtered: self.filtered@,
            i: self.i as nat,
        }
    }
}

impl<S> Probe<S> {
    /// Configures a probe for one (segment, mode) pair. The mode index must
    /// lie below the per-segment mode count, so the probe's combined index
    /// stays inside the shared buffer.
    pub fn new(sid: u8, mode: usize, n_mode: usize, frequency: u32) -> (r: Self)
        requires
            1 <= sid <= 7,
            mode < n_mode,
            n_mode * 7 <= usize::MAX,
        ensures
            r@ == fresh_probe::<S>(sid, mode, n_mode, frequency),
            probe_wf(r@),
    {
        Probe { sid, mode, n_mode, frequency, signal: Vec::new(), filtered: Vec::new(), i: 0 }
    }

    /// Returns the probe index: the slot `(sid - 1) * n_mode + mode` of the
    /// shared mode buffer that this probe drives and reads.
    pub fn id(&self) -> (r: usize)
        requires
            probe_wf(self@),
        ensures
            r == probe_index(self@),
            r < self@.n_mode * 7,
    {
        proof {
            lemma_probe_index_in_range(self@);
        }
        (self.sid as usize - 1) * self.n_mode + self.mode
    }

    /// The segment id, 1 through 7.
    pub fn segment(&self) -> (r: u8)
        ensures
            r == self@.sid,
    {
        self.sid
    }

    /// The mode index within the segment.
    pub fn mode(&self) -> (r: usize)
        ensures
            r == self@.mode,
    {
        self.mode
    }

    /// The per-segment mode count this probe was configured with.
    pub fn n_mode(&self) -> (r: usize)
        ensures
            r == self@.n_mode,
    {
        self.n_mode
    }

    /// The probe frequency in hertz.
    pub fn frequency(&self) -> (r: u32)
        ensures
            r == self@.frequency,
    {
        self.frequency
    }

    /// The sample counter: how many injections were recorded so far.
    pub fn counter(&self) -> (r: usize)
        ensures
            r as nat == self@.i,
    {
        self.i
    }

    /// The post-injection history.
    pub fn signal_history(&self) -> (r: &Vec<S>)
        ensures
            r@ == self@.signal,
    {
        &self.signal
    }

    /// The filtered-response history.
    pub fn filtered_history(&self) -> (r: &Vec<S>)
        ensures
            r@ == self@.filtered,
    {
        &self.filtered
    }

    /// Decides well-formedness of this probe, exactly as the contracts state
    /// it, so unverified callers can test it before relying on it.
    pub fn is_well_formed(&self) -> (r: bool)
        ensures
            r == probe_wf(self@),
    {
        proof {
            lemma_buffer_bound(self.n_mode);
        }
        1 <= self.sid && self.sid <= 7 && self.mode < self.n_mode && self.n_mode <= usize::MAX / 7
            && self.signal.len() == self.i
    }

    /// Records the post-injection value of the probe's buffer slot for this
    /// tick and advances the sample counter. The caller computes the sinusoid
    /// and the perturbed sample on the concrete scalar.
    pub fn record_injected(&mut self, sample: S)
        requires
            old(self)@.i < usize::MAX,
        ensures
            final(self)@ == injected_record(old(self)@, sample),
            injected_step(old(self)@, final(self)@, sample),
            probe_wf(old(self)@) ==> probe_wf(final(self)@),
    {
        self.signal.push(sample);
        self.i = self.i + 1;
    }

    /// The two histories paired tick by tick, as the demodulation consumes
    /// them: entry `i` holds the `i`-th injected sample and the `i`-th
    /// filtered sample, the same index standing for the same tick. When one
    /// history is longer — a residual was skipped after warm-up — the surplus
    /// is dropped, faithfully exposing the misalignment the correlation then
    /// sees.
    pub fn paired_history(&self) -> (r: Vec<(S, S)>) where S: Copy
        ensures
            r@.len() == vstd::math::min(self@.signal.len() as int, self@.filtered.len() as int),
            forall|t: int| 0 <= t < r@.len() ==> r@[t] == (self@.signal[t], self@.filtered[t]),
    {
        let len = if self.signal.len() <= self.filtered.len() {
            self.signal.len()
        } else {
            self.filtered.len()
        };
        let mut out: Vec<(S, S)> = Vec::new();
        let mut t: usize = 0;
        while t < len
            invariant
                len <= self.signal@.len(),
                len <= self.filtered@.len(),
                t <= len,
                out@.len() == t,
                forall|u: int| 0 <= u < t ==> out@[u] == (self@.signal[u], self@.filtered[u]),
            decreases len - t,
        {
            out.push((self.signal[t], self.filtered[t]));
            t = t + 1;
        }
        out
    }

    /// Appends one sample to the filtered-response history. Callers only do
    /// this when a residual vector actually arrived for the current tick; an
    /// empty delivery is "no data this tick" and must be skipped, not turned
    /// into a zero sample.
    pub fn ingest_filtered(&mut self, sample: S)
        ensures
            final(self)@ == filtered_record(old(self)@, sample),
            filtered_step(old(self)@, final(self)@, sample),
            probe_wf(old(self)@) ==> probe_wf(final(self)@),
    {
        self.filtered.push(sample);
    }
}

} // verus!
