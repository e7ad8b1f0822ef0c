use libllm_tui::input::{route_input_key, InputKey, Submission};
use libllm_tui::keys::{KeyCode, KeyEvent, KeyModifiers};
use libllm_tui::navigation::{route_chat_key, ChatKey};
use libllm_tui::status::StatusMessage;

fn k(code: KeyCode) -> KeyEvent {
    KeyEvent::new(code, KeyModifiers::none())
}

fn lines(v: &[&str]) -> Vec<String> {
    v.iter().map(|s| s.to_string()).collect()
}

#[test]
fn input_keys_over_a_blank_input() {
    let blank = lines(&[""]);
    assert_eq!(route_input_key(k(KeyCode::Up), &blank, true, false, false), InputKey::NavigateUp);
    assert_eq!(route_input_key(k(KeyCode::Down), &blank, true, false, false), InputKey::Type);
    assert_eq!(route_input_key(k(KeyCode::Down), &blank, true, true, false), InputKey::NavigateDown);
    assert_eq!(route_input_key(k(KeyCode::Left), &blank, true, true, false), InputKey::SwitchSibling(false));
    assert_eq!(route_input_key(k(KeyCode::Enter), &blank, true, true, false), InputKey::Recall);
    assert_eq!(route_input_key(k(KeyCode::Enter), &blank, true, false, false), InputKey::Nothing);
    assert_eq!(route_input_key(k(KeyCode::Up), &blank, true, false, true), InputKey::Ignored);
}

#[test]
fn input_keys_over_text() {
    let text = lines(&["/theme  dark "]);
    assert_eq!(route_input_key(k(KeyCode::Up), &text, false, false, false), InputKey::Type);
    assert_eq!(
        route_input_key(k(KeyCode::Enter), &text, false, false, false),
        InputKey::Submit(Submission::SlashCommand("/theme".into(), "dark".into()))
    );
    let msg = lines(&[" hi "]);
    assert_eq!(route_input_key(k(KeyCode::Enter), &msg, false, false, false), InputKey::Submit(Submission::Message("hi".into())));
    let alt_enter = KeyEvent::new(KeyCode::Enter, KeyModifiers::alt());
    assert_eq!(route_input_key(alt_enter, &msg, false, false, false), InputKey::Type);
    let ctrl_v = KeyEvent::new(KeyCode::Char('v'), KeyModifiers::control());
    assert_eq!(route_input_key(ctrl_v, &msg, false, false, false), InputKey::Clipboard);
}

#[test]
fn chat_pane_keys() {
    let ids = [1, 2, 3];
    let mut status: Option<StatusMessage> = None;
    assert_eq!(route_chat_key(k(KeyCode::Up), &[], Some(2), true, &[], &[], false, &mut status), ChatKey::Nothing);
    assert_eq!(route_chat_key(k(KeyCode::Up), &ids, Some(2), true, &ids, &[false; 3], false, &mut status), ChatKey::Cursor(Some(1)));
    assert_eq!(route_chat_key(k(KeyCode::Down), &ids, Some(3), true, &ids, &[false; 3], false, &mut status), ChatKey::Cursor(Some(3)));
    assert_eq!(route_chat_key(k(KeyCode::Right), &ids, None, false, &ids, &[false; 3], false, &mut status), ChatKey::SwitchSibling(true));
    assert_eq!(route_chat_key(k(KeyCode::Enter), &ids, Some(2), true, &ids, &[false; 3], false, &mut status), ChatKey::Edit(2));
    assert!(status.is_none());
    assert_eq!(
        route_chat_key(k(KeyCode::Enter), &ids, Some(1), true, &ids, &[false, true, false], false, &mut status),
        ChatKey::Refused
    );
    assert_eq!(status.unwrap().text, "Cannot edit before a summary. Branch from this message instead.");
}
