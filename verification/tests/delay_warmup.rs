use pym_optical_gain::Delay;

#[test]
fn delay_warmup_emits_empty() {
    let mut delay: Delay<f64> = Delay::new(3);
    assert_eq!(delay.threshold(), 3);
    assert_eq!(delay.count(), 0);
    assert!(delay.write().is_empty());
    for tick in 0..3 {
        delay.read(vec![1.0 + tick as f64, 2.0]);
        assert!(delay.write().is_empty());
        assert_eq!(delay.count(), tick + 1);
    }
    delay.read(vec![4.0, 5.0]);
    assert_eq!(delay.write().as_slice(), &[4.0, 5.0]);
}

#[test]
fn default_delay_has_zero_threshold() {
    let delay: Delay<f64> = Delay::default();
    assert_eq!(delay.threshold(), 0);
    assert_eq!(delay.count(), 0);
    assert!(delay.write().is_empty());
}

#[test]
fn delay_zero_threshold_echoes_immediately() {
    let mut delay: Delay<f64> = Delay::new(0);
    assert!(delay.write().is_empty());
    delay.read(vec![7.5]);
    assert_eq!(delay.write().as_slice(), &[7.5]);
}

#[test]
fn delay_active_no_lag_no_drops() {
    let mut delay: Delay<u32> = Delay::new(2);
    delay.read(vec![1]);
    delay.read(vec![2]);
    assert!(delay.write().is_empty());
    for v in 3..20u32 {
        delay.read(vec![v, v + 1]);
        assert_eq!(delay.write().as_slice(), &[v, v + 1]);
    }
    assert_eq!(delay.count(), 19);
}

#[test]
fn delay_holds_last_snapshot_between_reads() {
    let mut delay: Delay<i64> = Delay::new(1);
    delay.read(vec![-1]);
    delay.read(vec![10, 20]);
    assert_eq!(delay.write().as_slice(), &[10, 20]);
    assert_eq!(delay.write().as_slice(), &[10, 20]);
    delay.read(Vec::new());
    assert!(delay.write().is_empty());
}
