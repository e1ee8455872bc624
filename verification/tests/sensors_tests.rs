use doorlock::sensors::{
    AutoLockVerdict, AutoLocker, AUTOLOCK_COOLDOWN_MS, AUTOLOCK_INTERVAL_MS, ERR_TOLERANCE,
    FRAME_THRESHOLD_CM, RANGING_POLL_MS,
};

#[test]
fn stock_configuration() {
    let p = AutoLocker::new();
    assert_eq!(p.dwell_ms, 0);
    assert_eq!(p.errs, 0);
    assert_eq!(p.threshold_cm, FRAME_THRESHOLD_CM);
    assert_eq!(p.autolock_interval_ms, AUTOLOCK_INTERVAL_MS);
    assert_eq!(p.err_tolerance, ERR_TOLERANCE);
    assert_eq!(p.cooldown_ms, AUTOLOCK_COOLDOWN_MS);
}

#[test]
fn scenario_continuous_presence_emits_exactly_once() {
    // Scenario D: below-threshold readings for at least the interval, no
    // tolerance-exceeding gap: exactly one EnsureLocked is emitted, and
    // right after it a full interval is needed again.
    let mut p = AutoLocker::new();
    let mut emissions = 0;
    let mut emitted_at = 0;
    for sample in 1..=70u64 {
        let v = p.observe(Some(3), RANGING_POLL_MS);
        if v == AutoLockVerdict::EmitLock {
            emissions += 1;
            emitted_at = sample;
        }
    }
    assert_eq!(emissions, 1);
    // 60 polls of one second reach the 60 s interval
    assert_eq!(emitted_at, 60);
    // after the emission the dwell timer restarted from zero
    assert_eq!(p.dwell_ms, 10 * RANGING_POLL_MS);
    assert_eq!(p.errs, 0);
}

#[test]
fn emission_waits_for_cooldown_plus_interval() {
    let mut p = AutoLocker::with_config(6, 3_000, 3, 5_000);
    assert_eq!(p.observe(Some(2), 1_000), AutoLockVerdict::Continue);
    assert_eq!(p.observe(Some(2), 1_000), AutoLockVerdict::Continue);
    assert_eq!(p.observe(Some(2), 1_000), AutoLockVerdict::EmitLock);
    // the cooldown sleep passes before the next sample; the dwell timer
    // was reset, so even with that time accounted the next emission needs
    // a new full interval
    assert_eq!(p.observe(Some(2), 5_000), AutoLockVerdict::EmitLock);
    assert_eq!(p.observe(Some(2), 1_000), AutoLockVerdict::Continue);
}

#[test]
fn isolated_far_readings_are_absorbed() {
    let mut p = AutoLocker::with_config(6, 10_000, 3, 5_000);
    p.observe(Some(2), 1_000);
    assert_eq!(p.dwell_ms, 1_000);
    // three far readings: tolerated, dwell keeps running
    for _ in 0..3 {
        assert_eq!(p.observe(Some(50), 1_000), AutoLockVerdict::Continue);
    }
    assert_eq!(p.errs, 3);
    assert_eq!(p.dwell_ms, 4_000);
    // a near reading does not reset the tolerated-error count
    p.observe(Some(2), 1_000);
    assert_eq!(p.dwell_ms, 5_000);
}

#[test]
fn sustained_far_readings_cancel_pending_autolock() {
    let mut p = AutoLocker::with_config(6, 10_000, 3, 5_000);
    for _ in 0..5 {
        p.observe(Some(2), 1_000);
    }
    assert_eq!(p.dwell_ms, 5_000);
    for _ in 0..3 {
        p.observe(Some(50), 1_000);
    }
    // the fourth consecutive far reading exceeds the tolerance
    assert_eq!(p.observe(Some(50), 1_000), AutoLockVerdict::Continue);
    assert_eq!(p.dwell_ms, 0);
    assert_eq!(p.errs, 0);
}

#[test]
fn failed_samples_only_let_time_pass() {
    let mut p = AutoLocker::with_config(6, 4_000, 3, 5_000);
    p.observe(Some(2), 1_000);
    assert_eq!(p.observe(None, 1_000), AutoLockVerdict::Continue);
    assert_eq!(p.errs, 0);
    assert_eq!(p.dwell_ms, 2_000);
    // time kept accumulating through the failed sample
    p.observe(Some(2), 1_000);
    assert_eq!(p.observe(Some(2), 1_000), AutoLockVerdict::EmitLock);
}

#[test]
fn at_threshold_counts_as_far() {
    let mut p = AutoLocker::with_config(6, 2_000, 3, 5_000);
    assert_eq!(p.observe(Some(6), 2_000), AutoLockVerdict::Continue);
    assert_eq!(p.errs, 1);
}
