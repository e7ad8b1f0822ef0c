use libllm_tui::flash::{
    flash_active_after, flash_active_for, is_flash_active, settle_flash, settle_flash_after,
    tick_reject_flashes, tick_reject_flashes_after,
};
use std::time::{Duration, Instant};

#[test]
fn no_flash_is_never_active() {
    assert!(!is_flash_active(None));
}

#[test]
fn fresh_flash_is_active_and_old_one_is_not() {
    assert!(is_flash_active(Some(Instant::now())));
    if let Some(old) = Instant::now().checked_sub(Duration::from_secs(5)) {
        assert!(!is_flash_active(Some(old)));
    }
}

#[test]
fn settle_flash_clears_expired_and_asks_redraw() {
    let mut none: Option<Instant> = None;
    assert!(!settle_flash(&mut none));
    assert!(none.is_none());
    if let Some(old) = Instant::now().checked_sub(Duration::from_secs(5)) {
        let mut slot = Some(old);
        assert!(settle_flash(&mut slot));
        assert!(slot.is_none());
    }
    let fresh = Instant::now();
    let mut slot = Some(fresh);
    assert!(settle_flash(&mut slot));
    assert_eq!(slot, Some(fresh));
}

#[test]
fn tick_reject_flashes_redraws_only_with_a_flash() {
    let mut slots: Vec<Option<Instant>> = vec![None, None, None];
    assert!(!tick_reject_flashes(&mut slots));
    let fresh = Instant::now();
    let mut slots = vec![None, Some(fresh)];
    assert!(tick_reject_flashes(&mut slots));
    assert_eq!(slots, vec![None, Some(fresh)]);
}

#[test]
fn flash_lasts_one_hundred_fifty_milliseconds() {
    assert!(flash_active_for(0));
    assert!(flash_active_for(149));
    assert!(!flash_active_for(150));
    assert!(!flash_active_for(10_000));
    assert!(flash_active_after(Some(Instant::now()), 10));
    assert!(!flash_active_after(Some(Instant::now()), 150));
    assert!(!flash_active_after(None, 0));
}

#[test]
fn settling_clears_exactly_the_expired_flashes() {
    let t = Instant::now();
    let mut slot = Some(t);
    assert!(settle_flash_after(&mut slot, 149));
    assert_eq!(slot, Some(t));
    assert!(settle_flash_after(&mut slot, 150));
    assert_eq!(slot, None);
    assert!(!settle_flash_after(&mut slot, 500));
    let mut slots = vec![Some(t), None, Some(t)];
    assert!(tick_reject_flashes_after(&mut slots, &vec![200, 0, 20]));
    assert_eq!(slots, vec![None, None, Some(t)]);
    let mut empty: Vec<Option<Instant>> = vec![None];
    assert!(!tick_reject_flashes_after(&mut empty, &vec![999]));
}
