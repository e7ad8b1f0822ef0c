use libllm_tui::autosave::{input_holds, quit_after_exit_save, Autosave, QuitDecision, SaveTrigger};

#[test]
fn changes_are_saved_after_the_quiet_spell() {
    let mut a = Autosave::new();
    assert_eq!(a.due(0), None);
    a.mark_dirty(SaveTrigger::Debounced, false, true, 1000, 500);
    assert!(a.dirty);
    assert_eq!(a.due(1499), None);
    assert_eq!(a.due(1500), Some(SaveTrigger::Debounced));
    assert!(a.needs_save(true));
    a.save_finished(true, 1500, 3000);
    assert!(!a.dirty && a.pending_trigger.is_none() && a.deadline.is_none() && a.dirty_since.is_none());
    assert_eq!((a.save_count, a.retry_count), (1, 0));
    assert_eq!(a.due(10_000), None);
}

#[test]
fn immediate_changes_are_due_at_once() {
    let mut a = Autosave::new();
    a.mark_dirty(SaveTrigger::StreamDone, true, true, 42, 500);
    assert_eq!(a.due(42), Some(SaveTrigger::StreamDone));
}

#[test]
fn unpersistable_changes_are_not_scheduled() {
    let mut a = Autosave::new();
    a.mark_dirty(SaveTrigger::Debounced, true, false, 5, 500);
    assert!(a.dirty);
    assert_eq!(a.due(1_000_000), None);
    assert!(!a.needs_save(false));
}

#[test]
fn failed_saves_are_retried() {
    let mut a = Autosave::new();
    a.mark_dirty(SaveTrigger::Transition, true, true, 10, 500);
    a.save_finished(false, 10, 3000);
    assert!(a.dirty);
    assert_eq!(a.due(3009), None);
    assert_eq!(a.due(3010), Some(SaveTrigger::Retry));
    assert_eq!((a.save_count, a.retry_count), (0, 1));
    a.discard();
    assert!(!a.dirty && a.pending_trigger.is_none() && a.deadline.is_none() && a.dirty_since.is_none());
    assert_eq!((a.save_count, a.retry_count), (0, 1));
}

#[test]
fn input_is_cleared_only_when_unchanged() {
    let lines = vec!["  hello".to_string(), "world ".to_string()];
    assert!(input_holds(&lines, "hello\nworld"));
    assert!(!input_holds(&lines, "hello"));
}

#[test]
fn first_dirty_time_is_kept_until_saved() {
    let mut a = Autosave::new();
    assert_eq!(a.dirty_since, None);
    a.mark_dirty(SaveTrigger::Debounced, false, true, 100, 500);
    a.mark_dirty(SaveTrigger::Debounced, false, true, 400, 500);
    assert_eq!(a.dirty_since, Some(100));
    a.save_finished(false, 900, 3000);
    assert_eq!(a.dirty_since, Some(100));
    a.save_finished(true, 4000, 3000);
    assert_eq!(a.dirty_since, None);
}

#[test]
fn quitting_waits_for_the_exit_save() {
    assert_eq!(quit_after_exit_save(Ok(())), QuitDecision::Quit);
    assert_eq!(quit_after_exit_save(Err("disk full".to_owned())), QuitDecision::Stay("Save error: disk full".to_owned()));
}
