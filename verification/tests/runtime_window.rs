use ledger_indexer::runtime::{
    check_or_update_chain_id, resolve_start_version, ChainIdCheck, MovingAverage, ReportingState,
};

#[test]
fn window_evicts_samples_older_than_the_window() {
    let mut ma = MovingAverage::new(10_000);
    ma.tick(0, 5);
    ma.tick(5_000, 5);
    assert_eq!(ma.sample_count(), 2);
    assert_eq!(ma.sum(), 10);
    ma.tick(12_000, 5);
    // The t=0 sample is now older than the window and leaves; the
    // average reflects only the remaining samples.
    assert_eq!(ma.sample_count(), 2);
    assert_eq!(ma.sum(), 10);
    assert_eq!(ma.elapsed_millis(), 7_000);
    // 10 values over 7000 ms, scaled to one second.
    assert_eq!(ma.rate_per_second(), 10 * 1000 / 7000);
}

#[test]
fn window_rate_is_zero_below_two_samples() {
    let mut ma = MovingAverage::new(10_000);
    assert_eq!(ma.rate_per_second(), 0);
    ma.tick(100, 7);
    assert_eq!(ma.rate_per_second(), 0);
    assert_eq!(ma.elapsed_millis(), 0);
}

#[test]
fn window_keeps_sample_exactly_at_the_boundary() {
    let mut ma = MovingAverage::new(10_000);
    ma.tick(0, 1);
    ma.tick(10_000, 2);
    // Age is exactly the window: not older than the window, so it stays.
    assert_eq!(ma.sample_count(), 2);
    assert_eq!(ma.sum(), 3);
    ma.tick(10_001, 4);
    assert_eq!(ma.sample_count(), 2);
    assert_eq!(ma.sum(), 6);
}

#[test]
fn tick_now_accepts_samples() {
    let mut ma = MovingAverage::new(10_000);
    ma.tick_now(3);
    ma.tick_now(4);
    assert_eq!(ma.sum(), 7);
    assert_eq!(ma.sample_count(), 2);
}

#[test]
fn reporting_emits_every_bucket_crossing() {
    let mut state = ReportingState::new();
    assert!(!state.on_batch(5, 10));
    assert_eq!(state.versions_processed, 5);
    assert!(state.on_batch(5, 10));
    assert_eq!(state.versions_processed, 10);
    assert_eq!(state.base, 1);
    assert!(!state.on_batch(9, 10));
    assert!(state.on_batch(1, 10));
    assert_eq!(state.base, 2);
}

#[test]
fn reporting_never_emits_when_cadence_is_zero() {
    let mut state = ReportingState::new();
    assert!(!state.on_batch(1_000, 0));
    assert!(!state.on_batch(1_000, 0));
    assert_eq!(state.versions_processed, 2_000);
    assert_eq!(state.base, 0);
}

#[test]
fn start_version_prefers_the_override() {
    assert_eq!(resolve_start_version(Some(77), Some(1_000), 50), 77);
}

#[test]
fn start_version_rewinds_cursor_by_lookback() {
    assert_eq!(resolve_start_version(None, Some(1_000), 50), 950);
}

#[test]
fn start_version_floors_at_zero() {
    assert_eq!(resolve_start_version(None, Some(30), 50), 0);
    assert_eq!(resolve_start_version(None, None, 50), 0);
}

#[test]
fn chain_id_check_distinguishes_the_three_outcomes() {
    assert_eq!(check_or_update_chain_id(Some(4), 4), Ok(ChainIdCheck::Matches));
    assert_eq!(check_or_update_chain_id(None, 4), Ok(ChainIdCheck::StoreNew));
    assert_eq!(check_or_update_chain_id(Some(3), 4), Err(3));
}
