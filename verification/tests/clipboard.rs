use libllm_tui::clipboard::{clipboard_action, paste_result, ClipboardAction};
use libllm_tui::keys::{KeyCode, KeyEvent, KeyModifiers};

fn ctrl(c: char) -> KeyEvent {
    KeyEvent::new(KeyCode::Char(c), KeyModifiers::control())
}

#[test]
fn clipboard_keys_need_control_and_selection() {
    assert_eq!(clipboard_action(ctrl('c'), true), ClipboardAction::Copy);
    assert_eq!(clipboard_action(ctrl('c'), false), ClipboardAction::NotMine);
    assert_eq!(clipboard_action(ctrl('x'), true), ClipboardAction::Cut);
    assert_eq!(clipboard_action(ctrl('x'), false), ClipboardAction::NotMine);
    assert_eq!(clipboard_action(ctrl('v'), false), ClipboardAction::Paste);
    assert_eq!(
        clipboard_action(KeyEvent::new(KeyCode::Char('c'), KeyModifiers::none()), true),
        ClipboardAction::NotMine
    );
    assert_eq!(clipboard_action(ctrl('z'), true), ClipboardAction::NotMine);
}

#[test]
fn paste_results() {
    assert_eq!(paste_result(Ok("hi".to_owned())), (Some("hi".to_owned()), None));
    assert_eq!(paste_result(Ok(String::new())), (None, None));
    assert_eq!(paste_result(Err("no clipboard".to_owned())), (None, Some("no clipboard".to_owned())));
}
