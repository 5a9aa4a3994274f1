use pym_optical_gain::{Probe, ProbingSignals};

#[test]
fn probe_id_combines_segment_and_mode() {
    let probe: Probe<f64> = Probe::new(3, 40, 500, 210);
    assert_eq!(probe.id(), 2 * 500 + 40);
    assert_eq!(probe.segment(), 3);
    assert_eq!(probe.mode(), 40);
    assert_eq!(probe.n_mode(), 500);
    assert_eq!(probe.frequency(), 210);
    assert_eq!(probe.counter(), 0);
    assert!(probe.signal_history().is_empty());
    assert!(probe.filtered_history().is_empty());
    assert!(probe.is_well_formed());
}

#[test]
fn probe_first_segment_id_is_mode() {
    let probe: Probe<f64> = Probe::new(1, 3, 10, 210);
    assert_eq!(probe.id(), 3);
}

#[test]
fn probe_histories_grow_in_lockstep() {
    let mut probe: Probe<f64> = Probe::new(1, 3, 10, 210);
    let fs = 1000.0_f64;
    let amplitude = 1e-8_f64;
    let frequency = probe.frequency() as f64;
    for i in 0..2000usize {
        let w = 2.0 * std::f64::consts::PI * frequency * i as f64 / fs;
        let m = amplitude * w.sin();
        probe.record_injected(m);
        probe.ingest_filtered(0.5 * m);
    }
    assert_eq!(probe.counter(), 2000);
    assert_eq!(probe.signal_history().len(), 2000);
    assert_eq!(probe.filtered_history().len(), 2000);
    for i in 0..2000usize {
        let s = probe.signal_history()[i];
        let f = probe.filtered_history()[i];
        assert_eq!(f, 0.5 * s);
    }
    assert!(probe.is_well_formed());
}

#[test]
fn probe_skipped_residual_lets_histories_drift() {
    let mut probe: Probe<f64> = Probe::new(2, 0, 461, 80);
    probe.record_injected(1.0);
    probe.record_injected(2.0);
    probe.ingest_filtered(0.5);
    assert_eq!(probe.signal_history().len(), 2);
    assert_eq!(probe.filtered_history().len(), 1);
    assert_eq!(probe.counter(), 2);
}

#[test]
fn paired_history_zips_by_tick_and_drops_surplus() {
    let mut probe: Probe<f64> = Probe::new(2, 0, 461, 80);
    probe.record_injected(1.0);
    probe.record_injected(2.0);
    probe.record_injected(3.0);
    probe.ingest_filtered(0.5);
    probe.ingest_filtered(1.0);
    assert_eq!(probe.paired_history(), vec![(1.0, 0.5), (2.0, 1.0)]);
}

#[test]
fn outer_table_matches_fixed_configuration() {
    let outers = ProbingSignals::outers();
    assert_eq!(outers.len(), 6);
    let expected = [
        (1u8, 7usize, 210u32),
        (3, 40, 210),
        (5, 105, 210),
        (2, 192, 210),
        (4, 318, 210),
        (6, 460, 210),
    ];
    for (k, want) in expected.iter().enumerate() {
        assert_eq!(outers.get(k), *want);
    }
}

#[test]
fn center_table_matches_fixed_configuration() {
    let center = ProbingSignals::center();
    assert_eq!(center.len(), 4);
    let expected = [(7u8, 7usize, 80u32), (7, 105, 210), (7, 251, 310), (7, 401, 133)];
    for (k, want) in expected.iter().enumerate() {
        assert_eq!(center.get(k), *want);
    }
}

#[test]
fn combined_table_is_outers_then_center() {
    let combined = ProbingSignals::combined();
    let outers = ProbingSignals::outers();
    let center = ProbingSignals::center();
    assert_eq!(combined.len(), 10);
    for k in 0..6 {
        assert_eq!(combined.get(k), outers.get(k));
    }
    for k in 0..4 {
        assert_eq!(combined.get(6 + k), center.get(k));
    }
}
