//! Fixed probing-signal configuration tables.
//!
//! Two caller-fixed tables define the active probes of a run: six outer
//! segments carry one probed mode each at a shared frequency, and the center
//! segment carries four probed modes at four distinct frequencies. The
//! combined (segment, mode) pairs are pairwise distinct, so the combined
//! indices derived from them address disjoint slots of the shared buffer.

use vstd::prelude::*;

verus! {

/// One probing-signal entry: segment id, mode index, frequency in hertz.
pub type ProbeEntry = (u8, usize, u32);

/// The outer-segment table: one probed mode on each of segments 1 through 6,
/// all at the shared frequency of 210 Hz.
pub open spec fn outer_probe_table() -> Seq<ProbeEntry> {
    seq![
        (1u8, 7usize, 210u32),
        (3u8, 40usize, 210u32),
        (5u8, 105usize, 210u32),
        (2u8, 192usize, 210u32),
        (4u8, 318usize, 210u32),
        (6u8, 460usize, 210u32),
    ]
}

/// The center-segment table: four probed modes on segment 7, at four distinct
/// frequencies.
pub open spec fn center_probe_table() -> Seq<ProbeEntry> {
    seq![(7u8, 7usize, 80u32), (7u8, 105usize, 210u32), (7u8, 251usize, 310u32), (7u8, 401usize, 133u32)]
}

/// The combined configuration: the outer table followed by the center table.
pub open spec fn combined_probe_table() -> Seq<ProbeEntry> {
    outer_probe_table() + center_probe_table()
}

/// Every entry of the combined table has a segment id in range and a mode
/// index of at most 460.
pub open spec fn entry_in_range(e: ProbeEntry) -> bool {
    1 <= e.0 <= 7 && e.1 <= 460
}

/// The combined index an entry addresses for a given per-segment mode count.
pub open spec fn entry_index(e: ProbeEntry, n_mode: usize) -> int {
    (e.0 - 1) * n_mode + e.1
}

/// Law: two probing entries that differ in segment or in mode index address
/// different combined indices, provided both mode indices lie below the
/// per-segment mode count.
pub proof fn lemma_distinct_entries_distinct_indices(a: ProbeEntry, b: ProbeEntry, n_mode: usize)
    requires
        1 <= a.0,
        1 <= b.0,
        a.1 < n_mode,
        b.1 < n_mode,
        a.0 != b.0 || a.1 != b.1,
    ensures
        entry_index(a, n_mode) != entry_index(b, n_mode),
{
    if a.0 == b.0 {
        assert((a.0 - 1) * n_mode + a.1 != (b.0 - 1) * n_mode + b.1);
    } else {
        assert((a.0 - 1) * n_mode + a.1 != (b.0 - 1) * n_mode + b.1) by (nonlinear_arith)
            requires
                1 <= a.0,
                1 <= b.0,
                a.1 < n_mode,
                b.1 < n_mode,
                a.0 != b.0,
        ;
    }
}

/// Law: across the fixed combined probe configuration (six outer probes and
/// four center probes), all combined indices are pairwise distinct, for any
/// per-segment mode count large enough to hold every probed mode.
pub proof fn lemma_combined_indices_distinct(n_mode: usize)
    requires
        460 < n_mode,
    ensures
        forall|j: int, k: int|
            0 <= j < k < combined_probe_table().len() ==> entry_index(
                combined_probe_table()[j],
                n_mode,
            ) != entry_index(combined_probe_table()[k], n_mode),
{
    assert forall|j: int, k: int| 0 <= j < k < combined_probe_table().len() implies entry_index(
        combined_probe_table()[j],
        n_mode,
    ) != entry_index(combined_probe_table()[k], n_mode) by {
        let a = combined_probe_table()[j];
        let b = combined_probe_table()[k];
        assert(entry_in_range(a) && entry_in_range(b) && (a.0 != b.0 || a.1 != b.1));
        lemma_distinct_entries_distinct_indices(a, b, n_mode);
    }
}

/// A table of probing-signal parameters, one entry per probe.
pub struct ProbingSignals {
    table: Vec<ProbeEntry>,
}

impl View for ProbingSignals {
    type V = Seq<ProbeEntry>;

    closed spec fn view(&self) -> Seq<ProbeEntry> {
        self.table@
    }
}

impl ProbingSignals {
    /// The outer-segment probing table.
    pub fn outers() -> (r: Self)
        ensures
            r@ == outer_probe_table(),
    {
        let mut table: Vec<ProbeEntry> = Vec::new();
        table.push((1u8, 7usize, 210u32));
        table.push((3u8, 40usize, 210u32));
        table.push((5u8, 105usize, 210u32));
        table.push((2u8, 192usize, 210u32));
        table.push((4u8, 318usize, 210u32));
        table.push((6u8, 460usize, 210u32));
        assert(table@ =~= outer_probe_table());
        ProbingSignals { table }
    }

    /// The center-segment probing table.
    pub fn center() -> (r: Self)
        ensures
            r@ == center_probe_table(),
    {
        let mut table: Vec<ProbeEntry> = Vec::new();
        table.push((7u8, 7usize, 80u32));
        table.push((7u8, 105usize, 210u32));
        table.push((7u8, 251usize, 310u32));
        table.push((7u8, 401usize, 133u32));
        assert(table@ =~= center_probe_table());
        ProbingSignals { table }
    }

    /// The combined configuration: the outer table followed by the center
    /// table.
    pub fn combined() -> (r: Self)
        ensures
            r@ == combined_probe_table(),
    {
        let mut table: Vec<ProbeEntry> = Vec::new();
        table.push((1u8, 7usize, 210u32));
        table.push((3u8, 40usize, 210u32));
        table.push((5u8, 105usize, 210u32));
        table.push((2u8, 192usize, 210u32));
        table.push((4u8, 318usize, 210u32));
        table.push((6u8, 460usize, 210u32));
        table.push((7u8, 7usize, 80u32));
        table.push((7u8, 105usize, 210u32));
        table.push((7u8, 251usize, 310u32));
        table.push((7u8, 401usize, 133u32));
        assert(table@ =~= combined_probe_table());
        ProbingSignals { table }
    }

    /// The number of entries in the table.
    pub fn len(&self) -> (r: usize)
        ensures
            r == self@.len(),
    {
        self.table.len()
    }

    /// The entry at position `k`: segment id, mode index, frequency in hertz.
    pub fn get(&self, k: usize) -> (r: ProbeEntry)
        requires
            k < self@.len(),
        ensures
            r == self@[k as int],
    {
        self.table[k]
    }
}

} // verus!
