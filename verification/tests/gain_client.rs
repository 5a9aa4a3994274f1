use pym_optical_gain::{Delay, OpticalGain};

#[test]
fn new_builds_the_fixed_probe_list() {
    let og: OpticalGain<f64> = OpticalGain::new(500, 0.0);
    assert_eq!(og.n_probes(), 10);
    assert!(og.is_well_formed());
    let expected = [
        (1u8, 7usize, 210u32),
        (3, 40, 210),
        (5, 105, 210),
        (2, 192, 210),
        (4, 318, 210),
        (6, 460, 210),
        (7, 7, 80),
        (7, 105, 210),
        (7, 251, 310),
        (7, 401, 133),
    ];
    for (k, (sid, mode, frequency)) in expected.iter().enumerate() {
        let probe = &og.probes()[k];
        assert_eq!(probe.segment(), *sid);
        assert_eq!(probe.mode(), *mode);
        assert_eq!(probe.frequency(), *frequency);
        assert_eq!(probe.n_mode(), 500);
        assert_eq!(probe.counter(), 0);
        assert!(probe.signal_history().is_empty());
        assert!(probe.filtered_history().is_empty());
    }
    let modes = og.write();
    assert_eq!(modes.len(), 500 * 7);
    assert!(modes.iter().all(|&x| x == 0.0));
}

#[test]
fn probe_ids_are_pairwise_distinct() {
    let og: OpticalGain<f64> = OpticalGain::new(500, 0.0);
    let ids: Vec<usize> = og.probes().iter().map(|p| p.id()).collect();
    for a in 0..ids.len() {
        for b in (a + 1)..ids.len() {
            assert_ne!(ids[a], ids[b]);
        }
    }
}

#[test]
fn read_then_write_reproduces_the_vector() {
    let mut og: OpticalGain<f64> = OpticalGain::new(461, 0.0);
    let v: Vec<f64> = (0..461 * 7).map(|j| j as f64 * 0.25 - 3.0).collect();
    og.read(v.clone());
    assert_eq!(og.write(), v);
}

#[test]
fn update_places_each_sample_at_its_probe_slot() {
    let mut og: OpticalGain<f64> = OpticalGain::new(461, 0.0);
    let perturbed: Vec<f64> = (0..10).map(|k| 1.0 + k as f64).collect();
    og.update_with(&perturbed);
    let ids: Vec<usize> = og.probes().iter().map(|p| p.id()).collect();
    let modes = og.write();
    for (k, id) in ids.iter().enumerate() {
        assert_eq!(modes[*id], perturbed[k]);
    }
    for (j, value) in modes.iter().enumerate() {
        if !ids.contains(&j) {
            assert_eq!(*value, 0.0);
        }
    }
    for (k, probe) in og.probes().iter().enumerate() {
        assert_eq!(probe.counter(), 1);
        assert_eq!(probe.signal_history().as_slice(), &[perturbed[k]]);
        assert!(probe.filtered_history().is_empty());
    }
}

#[test]
fn probe_samples_read_the_probe_slots() {
    let mut og: OpticalGain<f64> = OpticalGain::new(461, 0.0);
    let mut v = vec![0.0; 461 * 7];
    let ids: Vec<usize> = og.probes().iter().map(|p| p.id()).collect();
    for (k, id) in ids.iter().enumerate() {
        v[*id] = 10.0 * (k as f64 + 1.0);
    }
    og.read(v);
    let samples = og.probe_samples();
    assert_eq!(samples.len(), 10);
    for (k, sample) in samples.iter().enumerate() {
        assert_eq!(*sample, 10.0 * (k as f64 + 1.0));
    }
}

#[test]
fn empty_residual_vector_is_skipped() {
    let mut og: OpticalGain<f64> = OpticalGain::new(461, 0.0);
    og.update_with(&vec![1.0; 10]);
    og.read_residuals(&Vec::new());
    for probe in og.probes().iter() {
        assert!(probe.filtered_history().is_empty());
        assert_eq!(probe.counter(), 1);
    }
}

#[test]
fn residual_vector_feeds_each_probe_from_its_slot() {
    let mut og: OpticalGain<f64> = OpticalGain::new(461, 0.0);
    let ids: Vec<usize> = og.probes().iter().map(|p| p.id()).collect();
    let mut residual = vec![0.0; 461 * 7];
    for (k, id) in ids.iter().enumerate() {
        residual[*id] = -(k as f64);
    }
    og.read_residuals(&residual);
    for (k, probe) in og.probes().iter().enumerate() {
        assert_eq!(probe.filtered_history().as_slice(), &[-(k as f64)]);
        assert!(probe.signal_history().is_empty());
    }
}

#[test]
fn warmed_up_loop_keeps_histories_aligned() {
    // A synthetic closed loop: the response is half the perturbed modes, and
    // the residual stream is released by a warm-up delay of two ticks.
    let n_mode = 461;
    let mut og: OpticalGain<f64> = OpticalGain::new(n_mode, 0.0);
    let mut delay: Delay<f64> = Delay::new(2);
    let fs = 1000.0_f64;
    let amplitude = 1e-8_f64;
    let ticks = 50;
    for _ in 0..ticks {
        let baseline = og.probe_samples();
        let mut perturbed = Vec::new();
        for (k, probe) in og.probes().iter().enumerate() {
            let w = 2.0 * std::f64::consts::PI * probe.frequency() as f64
                * probe.counter() as f64 / fs;
            perturbed.push(baseline[k] + amplitude * w.sin());
        }
        og.update_with(&perturbed);
        let modes = og.write();
        let response: Vec<f64> = modes.iter().map(|x| 0.5 * x).collect();
        delay.read(response);
        let released = delay.write().clone();
        if released.is_empty() || released.len() == n_mode * 7 {
            og.read_residuals(&released);
        }
    }
    for probe in og.probes().iter() {
        assert_eq!(probe.counter(), ticks);
        assert_eq!(probe.signal_history().len(), ticks);
        // two warm-up ticks were withheld by the delay
        assert_eq!(probe.filtered_history().len(), ticks - 2);
    }
}
