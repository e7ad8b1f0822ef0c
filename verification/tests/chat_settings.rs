use libllm_tui::chat_settings::{
    scenario_preview, ChatMode, ChatSettingsAction, ChatSettingsDialog, GroupChatSettings,
    GroupMember, Row,
};
use libllm_tui::keys::{KeyCode, KeyEvent, KeyModifiers};

fn k(code: KeyCode) -> KeyEvent {
    KeyEvent::new(code, KeyModifiers::none())
}

fn group(mode: ChatMode) -> GroupChatSettings {
    GroupChatSettings {
        chat_mode: mode,
        members: vec![
            GroupMember { slug: "alice".to_owned(), notch: 2 },
            GroupMember { slug: "bob".to_owned(), notch: 10 },
        ],
    }
}

#[test]
fn rows_for_single_character_and_group() {
    assert_eq!(ChatSettingsDialog::for_session(1).rows, vec![Row::Scenario]);
    assert_eq!(
        ChatSettingsDialog::for_session(2).rows,
        vec![Row::Scenario, Row::Mode, Row::Talkativeness { index: 0 }, Row::Talkativeness { index: 1 }]
    );
}

#[test]
fn navigation_stops_at_ends() {
    let mut d = ChatSettingsDialog::for_session(2);
    let mut s = group(ChatMode::ActionValue);
    let mut warn = None;
    d.handle_key(k(KeyCode::Up), &mut s, false, false, &[], 10, &mut warn);
    assert_eq!(d.selected, 0);
    for _ in 0..10 {
        d.handle_key(k(KeyCode::Down), &mut s, false, false, &[], 10, &mut warn);
    }
    assert_eq!(d.selected, 3);
}

#[test]
fn mode_cycles_both_ways() {
    let mut d = ChatSettingsDialog::for_session(2);
    d.selected = 1;
    let mut s = group(ChatMode::ActionValue);
    let mut warn = None;
    d.handle_key(k(KeyCode::Right), &mut s, false, false, &[], 10, &mut warn);
    assert_eq!(s.chat_mode, ChatMode::RoundRobin);
    d.handle_key(k(KeyCode::Left), &mut s, false, false, &[], 10, &mut warn);
    d.handle_key(k(KeyCode::Left), &mut s, false, false, &[], 10, &mut warn);
    assert_eq!(s.chat_mode, ChatMode::Directed);
    assert!(warn.is_none());
}

#[test]
fn locked_mode_warns_and_keeps_mode() {
    let mut d = ChatSettingsDialog::for_session(2);
    d.selected = 1;
    let mut s = group(ChatMode::WeightedRandom);
    let mut warn = None;
    d.handle_key(k(KeyCode::Right), &mut s, false, true, &[], 10, &mut warn);
    assert_eq!(s.chat_mode, ChatMode::WeightedRandom);
    assert_eq!(warn.as_deref(), Some("chat mode is locked by --chat-mode CLI flag"));
}

#[test]
fn talkativeness_clamps_and_respects_locks_and_mode() {
    let mut d = ChatSettingsDialog::for_session(2);
    let mut warn = None;
    d.selected = 3;
    let mut s = group(ChatMode::WeightedRandom);
    d.handle_key(k(KeyCode::Right), &mut s, false, false, &[], 10, &mut warn);
    assert_eq!(s.members[1].notch, 10);
    d.handle_key(k(KeyCode::Left), &mut s, false, false, &[], 10, &mut warn);
    assert_eq!(s.members[1].notch, 9);
    assert_eq!(s.members[0].notch, 2);
    let locked = vec!["bob".to_owned()];
    d.handle_key(k(KeyCode::Left), &mut s, false, false, &locked, 10, &mut warn);
    assert_eq!(s.members[1].notch, 9);
    assert_eq!(warn.as_deref(), Some("talkativeness for bob is locked by --talkativeness CLI flag"));
    let mut rr = group(ChatMode::RoundRobin);
    d.handle_key(k(KeyCode::Left), &mut rr, false, false, &[], 10, &mut warn);
    assert_eq!(rr.members[1].notch, 10);
}

#[test]
fn enter_and_esc() {
    let mut d = ChatSettingsDialog::for_session(1);
    let mut s = group(ChatMode::ActionValue);
    let mut warn = None;
    assert_eq!(
        d.handle_key(k(KeyCode::Enter), &mut s, false, false, &[], 10, &mut warn),
        ChatSettingsAction::EditScenario
    );
    assert_eq!(
        d.handle_key(k(KeyCode::Enter), &mut s, true, false, &[], 10, &mut warn),
        ChatSettingsAction::Continue
    );
    assert_eq!(warn.as_deref(), Some("scenario is locked by --scenario CLI flag"));
    assert_eq!(
        d.handle_key(k(KeyCode::Esc), &mut s, false, false, &[], 10, &mut warn),
        ChatSettingsAction::Close
    );
}

#[test]
fn scenario_preview_forms() {
    assert_eq!(scenario_preview(None), "(empty \u{2014} press Enter)");
    assert_eq!(scenario_preview(Some("   ")), "(empty \u{2014} press Enter)");
    assert_eq!(scenario_preview(Some("  A tavern.  ")), "A tavern.");
    let long = "x".repeat(81);
    assert_eq!(scenario_preview(Some(&long)), format!("{}\u{2026}", "x".repeat(80)));
}
