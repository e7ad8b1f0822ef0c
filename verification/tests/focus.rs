use libllm_tui::focus::{
    focus_after_model_failed, focus_after_model_fetched, is_dialog_focus, post_passkey_focus,
    route_key, tab_move, Focus, KeyRoute, TabMove,
};
use libllm_tui::keys::{KeyCode, KeyEvent, KeyModifiers};

fn k(code: KeyCode) -> KeyEvent {
    KeyEvent::new(code, KeyModifiers::none())
}

fn ctrl(c: char) -> KeyEvent {
    KeyEvent::new(KeyCode::Char(c), KeyModifiers::control())
}

fn alt(code: KeyCode) -> KeyEvent {
    KeyEvent::new(code, KeyModifiers::alt())
}

#[test]
fn panes_are_not_dialogs() {
    assert!(!is_dialog_focus(Focus::Input));
    assert!(!is_dialog_focus(Focus::Chat));
    assert!(!is_dialog_focus(Focus::Sidebar));
    assert!(is_dialog_focus(Focus::AuthDialog));
    assert!(is_dialog_focus(Focus::LoadingDialog));
}

#[test]
fn dialogs_take_every_key() {
    assert_eq!(route_key(Focus::ConfigDialog, true, ctrl('c'), false, false), KeyRoute::Dialog);
}

#[test]
fn streaming_keys_go_to_the_stream() {
    assert_eq!(route_key(Focus::Input, true, k(KeyCode::Esc), false, false), KeyRoute::Streaming);
}

#[test]
fn ctrl_c_copies_a_selection_first() {
    assert_eq!(route_key(Focus::Input, false, ctrl('c'), true, false), KeyRoute::CopyOrQuit);
    assert_eq!(route_key(Focus::Input, false, ctrl('c'), false, false), KeyRoute::Quit);
    assert_eq!(route_key(Focus::Chat, false, ctrl('c'), true, false), KeyRoute::Quit);
    assert_eq!(route_key(Focus::Chat, false, ctrl('q'), false, false), KeyRoute::Quit);
}

#[test]
fn alt_arrows_switch_branches() {
    assert_eq!(route_key(Focus::Chat, false, alt(KeyCode::Left), false, false), KeyRoute::SwitchSibling(false));
    assert_eq!(route_key(Focus::Input, false, alt(KeyCode::Right), false, false), KeyRoute::SwitchSibling(true));
}

#[test]
fn tab_cycles_panes() {
    assert_eq!(route_key(Focus::Input, false, k(KeyCode::Tab), false, false), KeyRoute::CycleFocus(Focus::Chat));
    assert_eq!(route_key(Focus::Chat, false, k(KeyCode::Tab), false, false), KeyRoute::CycleFocus(Focus::Sidebar));
    assert_eq!(route_key(Focus::Sidebar, false, k(KeyCode::Tab), false, false), KeyRoute::CycleFocus(Focus::Input));
}

#[test]
fn esc_returns_to_input_unless_sidebar_searching() {
    assert_eq!(route_key(Focus::Chat, false, k(KeyCode::Esc), false, false), KeyRoute::BackToInput);
    assert_eq!(route_key(Focus::Sidebar, false, k(KeyCode::Esc), false, true), KeyRoute::Pane(Focus::Sidebar));
    assert_eq!(route_key(Focus::Sidebar, false, k(KeyCode::Esc), false, false), KeyRoute::BackToInput);
}

#[test]
fn other_keys_go_to_the_pane() {
    assert_eq!(route_key(Focus::Input, false, k(KeyCode::Char('a')), false, false), KeyRoute::Pane(Focus::Input));
}

#[test]
fn focus_after_passkey_and_model() {
    assert_eq!(post_passkey_focus(false, true), Focus::LoadingDialog);
    assert_eq!(post_passkey_focus(true, false), Focus::ApiErrorDialog);
    assert_eq!(post_passkey_focus(true, true), Focus::Input);
    assert_eq!(focus_after_model_fetched(Focus::LoadingDialog), Focus::Input);
    assert_eq!(focus_after_model_fetched(Focus::Chat), Focus::Chat);
    assert_eq!(focus_after_model_failed(Focus::PasskeyDialog), Focus::PasskeyDialog);
    assert_eq!(focus_after_model_failed(Focus::Input), Focus::ApiErrorDialog);
}

#[test]
fn tab_into_the_chat_points_at_the_last_message() {
    assert_eq!(
        tab_move(Focus::Input, Some(42)),
        TabMove { focus: Focus::Chat, nav_cursor: Some(42), stop_auto_scroll: true }
    );
    assert_eq!(tab_move(Focus::Input, None), TabMove { focus: Focus::Chat, nav_cursor: None, stop_auto_scroll: true });
    assert_eq!(tab_move(Focus::Chat, Some(1)), TabMove { focus: Focus::Sidebar, nav_cursor: None, stop_auto_scroll: false });
    assert_eq!(tab_move(Focus::Sidebar, Some(1)), TabMove { focus: Focus::Input, nav_cursor: None, stop_auto_scroll: false });
}
