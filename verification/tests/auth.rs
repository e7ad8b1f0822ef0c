use libllm_tui::auth::{
    auth_kind_label, handle_auth_dialog_key, handle_type_picker_key, rows_for, Auth,
    AuthDialogAction, AuthDialogState, AuthScratchpad, FieldSlot, LocksBySlot, TypePickerOutcome,
};
use libllm_tui::business::{AuthKind, CliOverrides, SamplingOverridden};
use libllm_tui::keys::{KeyCode, KeyEvent, KeyModifiers};

fn k(code: KeyCode) -> KeyEvent {
    KeyEvent::new(code, KeyModifiers::none())
}

fn no_locks() -> LocksBySlot {
    LocksBySlot {
        auth_type: false,
        basic_username: false,
        basic_password: false,
        bearer_token: false,
        header_name: false,
        header_value: false,
        query_name: false,
        query_value: false,
    }
}

fn bearer(token: &str) -> Auth {
    Auth::Bearer { token: token.to_string() }
}

#[test]
fn rows_follow_the_kind() {
    let (labels, slots) = rows_for(AuthKind::Basic);
    assert_eq!(labels, vec!["Type", "Username", "Password"]);
    assert_eq!(slots, vec![FieldSlot::Type, FieldSlot::BasicUsername, FieldSlot::BasicPassword]);
    let (labels, slots) = rows_for(AuthKind::NoAuth);
    assert_eq!(labels, vec!["Type"]);
    assert_eq!(slots, vec![FieldSlot::Type]);
    let (labels, _) = rows_for(AuthKind::Bearer);
    assert_eq!(labels, vec!["Type", "Token"]);
}

#[test]
fn kind_labels() {
    assert_eq!(auth_kind_label(AuthKind::NoAuth), "None");
    assert_eq!(auth_kind_label(AuthKind::Query), "Query");
    assert_eq!(auth_kind_label(AuthKind::Header), "Header");
}

#[test]
fn secret_slots_are_masked() {
    assert!(FieldSlot::BasicPassword.is_secret());
    assert!(FieldSlot::BearerToken.is_secret());
    assert!(FieldSlot::HeaderValue.is_secret());
    assert!(FieldSlot::QueryValue.is_secret());
    assert!(!FieldSlot::BasicUsername.is_secret());
    assert!(!FieldSlot::HeaderName.is_secret());
    assert!(!FieldSlot::Type.is_secret());
}

#[test]
fn locks_come_from_the_command_line() {
    let o = CliOverrides {
        api_url: None,
        template: None,
        tls_skip_verify: false,
        sampling: SamplingOverridden::default(),
        system_prompt: None,
        persona: None,
        no_summarize: false,
        auth_type: None,
        auth_basic_username: None,
        auth_basic_password: None,
        auth_bearer_token: Some("t".to_string()),
        auth_header_name: None,
        auth_header_value: None,
        auth_query_name: None,
        auth_query_value: None,
    };
    let l = LocksBySlot::from_overrides(&o);
    assert!(l.is_locked(FieldSlot::BearerToken));
    assert!(!l.is_locked(FieldSlot::Type));
    assert!(!l.is_locked(FieldSlot::BasicUsername));
}

#[test]
fn scratchpad_holds_the_values_of_the_auth() {
    let p = AuthScratchpad::from_auth(&Auth::Header {
        name: "X-Key".to_string(),
        value: "v".to_string(),
    });
    assert_eq!(p.header_name, "X-Key");
    assert_eq!(p.header_value, "v");
    assert_eq!(p.bearer_token, "");
    assert_eq!(p.basic_username, "");
}

#[test]
fn dialog_opens_on_the_kind_row() {
    let s = AuthDialogState::from_auth(&bearer("abc"), &no_locks());
    assert_eq!(s.active_type, AuthKind::Bearer);
    assert_eq!(s.selected, 0);
    assert!(!s.editing);
    assert_eq!(s.locked, vec![false, false]);
    assert!(s.close_candidate().is_none());
}

#[test]
fn enter_on_kind_row_opens_picker() {
    let mut s = AuthDialogState::from_auth(&bearer("abc"), &no_locks());
    let r = handle_auth_dialog_key(&mut s, k(KeyCode::Enter));
    assert_eq!(r, AuthDialogAction::OpenTypePicker);
}

#[test]
fn editing_a_value_marks_it_changed() {
    let mut s = AuthDialogState::from_auth(&bearer("abc"), &no_locks());
    handle_auth_dialog_key(&mut s, k(KeyCode::Down));
    assert_eq!(s.selected, 1);
    handle_auth_dialog_key(&mut s, k(KeyCode::Enter));
    assert!(s.editing);
    assert_eq!(s.cursor_pos, 3);
    handle_auth_dialog_key(&mut s, k(KeyCode::Char('d')));
    handle_auth_dialog_key(&mut s, k(KeyCode::Left));
    handle_auth_dialog_key(&mut s, k(KeyCode::Backspace));
    assert_eq!(s.scratchpad.bearer_token, "abd");
    assert_eq!(s.cursor_pos, 2);
    handle_auth_dialog_key(&mut s, k(KeyCode::Enter));
    assert!(!s.editing);
    assert!(s.value_changed);
    assert_eq!(s.close_candidate(), Some(bearer("abd")));
}

#[test]
fn cursor_moves_do_not_mark_changed() {
    let mut s = AuthDialogState::from_auth(&bearer("abc"), &no_locks());
    handle_auth_dialog_key(&mut s, k(KeyCode::Down));
    handle_auth_dialog_key(&mut s, k(KeyCode::Enter));
    handle_auth_dialog_key(&mut s, k(KeyCode::Home));
    assert_eq!(s.cursor_pos, 0);
    handle_auth_dialog_key(&mut s, k(KeyCode::Backspace));
    handle_auth_dialog_key(&mut s, k(KeyCode::End));
    handle_auth_dialog_key(&mut s, k(KeyCode::Delete));
    assert_eq!(s.cursor_pos, 3);
    assert_eq!(s.scratchpad.bearer_token, "abc");
    assert!(!s.value_changed);
}

#[test]
fn locked_row_cannot_be_edited() {
    let mut locks = no_locks();
    locks.bearer_token = true;
    let mut s = AuthDialogState::from_auth(&bearer("abc"), &locks);
    handle_auth_dialog_key(&mut s, k(KeyCode::Down));
    let r = handle_auth_dialog_key(&mut s, k(KeyCode::Enter));
    assert_eq!(r, AuthDialogAction::Continue);
    assert!(!s.editing);
}

#[test]
fn selection_stays_within_rows() {
    let mut s = AuthDialogState::from_auth(&bearer("abc"), &no_locks());
    handle_auth_dialog_key(&mut s, k(KeyCode::Up));
    assert_eq!(s.selected, 0);
    handle_auth_dialog_key(&mut s, k(KeyCode::Down));
    handle_auth_dialog_key(&mut s, k(KeyCode::Down));
    assert_eq!(s.selected, 1);
    assert_eq!(handle_auth_dialog_key(&mut s, k(KeyCode::Esc)), AuthDialogAction::Close);
}

#[test]
fn picker_switches_kind_and_keeps_typed_values() {
    let mut s = AuthDialogState::from_auth(&bearer("abc"), &no_locks());
    s.open_type_picker();
    assert_eq!(s.type_picker_selected, 2);
    assert_eq!(handle_type_picker_key(&mut s, k(KeyCode::Down), &no_locks()), TypePickerOutcome::Stay);
    assert_eq!(s.type_picker_selected, 3);
    assert_eq!(handle_type_picker_key(&mut s, k(KeyCode::Enter), &no_locks()), TypePickerOutcome::Back);
    assert_eq!(s.active_type, AuthKind::Header);
    assert_eq!(s.labels, vec!["Type", "Name", "Value"]);
    assert!(s.value_changed);
    assert_eq!(s.scratchpad.bearer_token, "abc");
    s.open_type_picker();
    handle_type_picker_key(&mut s, k(KeyCode::Up), &no_locks());
    handle_type_picker_key(&mut s, k(KeyCode::Enter), &no_locks());
    assert_eq!(s.build_candidate_auth(), bearer("abc"));
}

#[test]
fn picker_bounds_and_esc() {
    let mut s = AuthDialogState::from_auth(&Auth::NoAuth, &no_locks());
    s.open_type_picker();
    assert_eq!(s.type_picker_selected, 0);
    handle_type_picker_key(&mut s, k(KeyCode::Up), &no_locks());
    assert_eq!(s.type_picker_selected, 0);
    for _ in 0..10 {
        handle_type_picker_key(&mut s, k(KeyCode::Down), &no_locks());
    }
    assert_eq!(s.type_picker_selected, 4);
    assert_eq!(handle_type_picker_key(&mut s, k(KeyCode::Esc), &no_locks()), TypePickerOutcome::Back);
    assert_eq!(s.active_type, AuthKind::NoAuth);
    assert!(!s.value_changed);
}

#[test]
fn locked_kind_is_not_switched() {
    let mut locks = no_locks();
    locks.auth_type = true;
    let mut s = AuthDialogState::from_auth(&bearer("abc"), &locks);
    s.open_type_picker();
    handle_type_picker_key(&mut s, k(KeyCode::Down), &locks);
    handle_type_picker_key(&mut s, k(KeyCode::Enter), &locks);
    assert_eq!(s.active_type, AuthKind::Bearer);
    assert!(!s.value_changed);
}

#[test]
fn choosing_the_active_kind_changes_nothing() {
    let mut s = AuthDialogState::from_auth(&bearer("abc"), &no_locks());
    s.open_type_picker();
    handle_type_picker_key(&mut s, k(KeyCode::Enter), &no_locks());
    assert!(!s.value_changed);
    assert!(s.close_candidate().is_none());
}
