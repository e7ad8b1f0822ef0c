use libllm_tui::edit::{
    api_error_key_closes, handle_branch_dialog_key, handle_edit_confirm_key, handle_edit_key,
    loading_key_quits, BranchKey, EditConfirm, EditKey,
};
use libllm_tui::keys::{KeyCode, KeyEvent, KeyModifiers};

fn k(code: KeyCode) -> KeyEvent {
    KeyEvent::new(code, KeyModifiers::none())
}

fn lines(v: &[&str]) -> Vec<String> {
    v.iter().map(|s| s.to_string()).collect()
}

#[test]
fn esc_closes_or_asks() {
    let l = lines(&["hello", "world"]);
    assert_eq!(handle_edit_key(k(KeyCode::Esc), &l, "hello\nworld", Some(3)), EditKey::Close);
    assert_eq!(handle_edit_key(k(KeyCode::Esc), &l, "hello", Some(3)), EditKey::AskConfirm);
}

#[test]
fn alt_enter_submits_trimmed_text() {
    let alt_enter = KeyEvent::new(KeyCode::Enter, KeyModifiers::alt());
    let l = lines(&["  new text ", ""]);
    assert_eq!(handle_edit_key(alt_enter, &l, "old", Some(3)), EditKey::Submit(Some((3, "new text".into()))));
    assert_eq!(handle_edit_key(alt_enter, &lines(&["  "]), "old", Some(3)), EditKey::Submit(None));
    assert_eq!(handle_edit_key(alt_enter, &l, "old", None), EditKey::Submit(None));
    assert_eq!(handle_edit_key(k(KeyCode::Enter), &l, "old", Some(3)), EditKey::ToEditor);
}

#[test]
fn confirm_prompt() {
    let l = lines(&["changed"]);
    let mut sel = 0;
    assert_eq!(handle_edit_confirm_key(k(KeyCode::Right), &mut sel, &l, Some(1)), EditConfirm::Continue);
    assert_eq!(sel, 1);
    assert_eq!(handle_edit_confirm_key(k(KeyCode::Enter), &mut sel, &l, Some(1)), EditConfirm::Discard);
    handle_edit_confirm_key(k(KeyCode::Left), &mut sel, &l, Some(1));
    assert_eq!(handle_edit_confirm_key(k(KeyCode::Enter), &mut sel, &l, Some(1)), EditConfirm::Save(Some((1, "changed".into()))));
    assert_eq!(handle_edit_confirm_key(k(KeyCode::Esc), &mut sel, &l, Some(1)), EditConfirm::Back);
}

#[test]
fn branch_list_keys() {
    assert_eq!(handle_branch_dialog_key(k(KeyCode::Enter), 0, 0), BranchKey::Continue);
    assert_eq!(handle_branch_dialog_key(k(KeyCode::Esc), 0, 0), BranchKey::Close);
    assert_eq!(handle_branch_dialog_key(k(KeyCode::Enter), 3, 2), BranchKey::Switch(2));
    assert_eq!(handle_branch_dialog_key(k(KeyCode::Down), 3, 2), BranchKey::Paged);
    assert_eq!(handle_branch_dialog_key(k(KeyCode::Char('x')), 3, 2), BranchKey::Continue);
}

#[test]
fn error_and_loading_dialog_keys() {
    assert!(api_error_key_closes(k(KeyCode::Enter)));
    assert!(!api_error_key_closes(k(KeyCode::Char('q'))));
    assert!(loading_key_quits(KeyEvent::new(KeyCode::Char('c'), KeyModifiers::control())));
    assert!(!loading_key_quits(k(KeyCode::Char('c'))));
}
