use crack_core::idle::{IdleHandler, IdleOutcome};
use crack_core::track_end::PlayMode;

#[test]
fn a_playing_track_resets_the_idle_count() {
    let mut h = IdleHandler { limit: 2, count: 5, no_timeout: true };
    let r = h.act(&vec![PlayMode::Pause, PlayMode::Play]);
    assert_eq!(r, IdleOutcome::Stay);
    assert_eq!(h.count, 0);
}

#[test]
fn idle_ticks_leave_once_the_count_is_past_the_limit() {
    let mut h = IdleHandler::new(2, true);
    let outcomes: Vec<IdleOutcome> = (0..4).map(|_| h.act(&vec![PlayMode::Pause])).collect();
    assert_eq!(
        outcomes,
        vec![IdleOutcome::Stay, IdleOutcome::Stay, IdleOutcome::Stay, IdleOutcome::Leave]
    );
    assert_eq!(h.count, 4);
}

#[test]
fn without_counting_an_idle_tick_changes_nothing() {
    let mut h = IdleHandler { limit: 1, count: 9, no_timeout: false };
    assert_eq!(h.act(&vec![]), IdleOutcome::Stay);
    assert_eq!(h.count, 9);
}

#[test]
fn a_zero_limit_stays_however_long_it_idles() {
    let mut h = IdleHandler { limit: 0, count: 1000, no_timeout: true };
    assert_eq!(h.act(&vec![PlayMode::Stop]), IdleOutcome::Stay);
    assert_eq!(h.count, 1001);
}

#[test]
fn the_idle_count_wraps_at_its_largest_value() {
    let mut h = IdleHandler { limit: 3, count: usize::MAX, no_timeout: true };
    assert_eq!(h.act(&vec![]), IdleOutcome::Leave);
    assert_eq!(h.count, 0);
}
