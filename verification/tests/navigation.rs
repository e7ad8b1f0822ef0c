use libllm_tui::navigation::{
    chat_cursor_step, edit_allowed, input_is_blank, navigate_down, navigate_up,
    restored_selection, route_sidebar_key, sibling_after_switch, sidebar_step, sidebar_visible,
    SidebarKey,
};
use libllm_tui::keys::{KeyCode, KeyEvent, KeyModifiers};

#[test]
fn up_from_the_input_starts_at_the_last_user_message() {
    let ids = [3, 7, 9];
    assert_eq!(navigate_up(&ids, None), (Some(9), true));
    assert_eq!(navigate_up(&ids, Some(9)), (Some(7), false));
    assert_eq!(navigate_up(&ids, Some(3)), (Some(3), false));
    assert_eq!(navigate_up(&[], None), (None, false));
    assert_eq!(navigate_up(&ids, Some(42)), (Some(42), false));
}

#[test]
fn down_leaves_the_messages_after_the_last() {
    let ids = [3, 7, 9];
    assert_eq!(navigate_down(&ids, Some(3)), (Some(7), false));
    assert_eq!(navigate_down(&ids, Some(9)), (None, true));
    assert_eq!(navigate_down(&ids, None), (None, false));
    assert_eq!(navigate_down(&ids, Some(42)), (None, true));
}

#[test]
fn down_undoes_up() {
    let ids = [3, 7, 9];
    let (up, _) = navigate_up(&ids, Some(9));
    assert_eq!(navigate_down(&ids, up).0, Some(9));
}

#[test]
fn chat_cursor_stays_at_the_ends() {
    let ids = [1, 2, 3];
    assert_eq!(chat_cursor_step(&ids, Some(2), true), Some(1));
    assert_eq!(chat_cursor_step(&ids, Some(1), true), Some(1));
    assert_eq!(chat_cursor_step(&ids, Some(3), false), Some(3));
    assert_eq!(chat_cursor_step(&ids, Some(2), false), Some(3));
    assert_eq!(chat_cursor_step(&ids, None, false), None);
}

#[test]
fn siblings_wrap_around() {
    let sibs = [10, 11, 12];
    assert_eq!(sibling_after_switch(&sibs, 12, true), Some(10));
    assert_eq!(sibling_after_switch(&sibs, 10, false), Some(12));
    assert_eq!(sibling_after_switch(&sibs, 11, true), Some(12));
    assert_eq!(sibling_after_switch(&[10], 10, true), None);
    assert_eq!(sibling_after_switch(&sibs, 99, true), None);
}

#[test]
fn no_edit_before_a_summary() {
    let ids = [1, 2, 3, 4];
    let summary = [false, false, true, false];
    assert!(!edit_allowed(&ids, &summary, 1, false));
    assert!(edit_allowed(&ids, &summary, 3, true));
    assert!(edit_allowed(&ids, &summary, 4, false));
    assert!(edit_allowed(&ids, &summary, 99, false));
}

#[test]
fn sidebar_filter_and_wrap() {
    let new_chat = [true, false, false, false];
    let matches = [false, true, false, true];
    assert_eq!(sidebar_visible(&new_chat, &matches, true), vec![0, 1, 3]);
    assert_eq!(sidebar_visible(&new_chat, &matches, false), vec![0, 1, 2, 3]);
    let visible = [0, 1, 3];
    assert_eq!(sidebar_step(&visible, 0, true), 3);
    assert_eq!(sidebar_step(&visible, 3, false), 0);
    assert_eq!(sidebar_step(&visible, 1, false), 3);
    assert_eq!(sidebar_step(&visible, 2, false), 1);
}

#[test]
fn blank_input() {
    assert!(input_is_blank(&["  ".to_string(), "".to_string()]));
    assert!(!input_is_blank(&["  a".to_string()]));
    assert!(input_is_blank(&[]));
}

fn sk(code: KeyCode) -> KeyEvent {
    KeyEvent::new(code, KeyModifiers::none())
}

#[test]
fn sidebar_keys_without_search() {
    let vis = [0, 1, 2];
    assert_eq!(route_sidebar_key(sk(KeyCode::Down), 0, false, &[], 0, false), SidebarKey::Nothing);
    assert_eq!(
        route_sidebar_key(KeyEvent::new(KeyCode::Char('f'), KeyModifiers::control()), 3, false, &vis, 1, false),
        SidebarKey::EnterSearch
    );
    assert_eq!(route_sidebar_key(sk(KeyCode::Down), 3, false, &vis, 2, false), SidebarKey::Select(0));
    assert_eq!(route_sidebar_key(sk(KeyCode::Up), 3, false, &vis, 0, false), SidebarKey::Select(2));
    assert_eq!(route_sidebar_key(sk(KeyCode::Delete), 3, false, &vis, 1, false), SidebarKey::ConfirmDelete);
    assert_eq!(route_sidebar_key(sk(KeyCode::Backspace), 3, false, &vis, 0, true), SidebarKey::Nothing);
    assert_eq!(route_sidebar_key(sk(KeyCode::Char('x')), 3, false, &vis, 0, false), SidebarKey::Nothing);
}

#[test]
fn sidebar_keys_while_searching() {
    let vis = [0, 2];
    assert_eq!(route_sidebar_key(sk(KeyCode::Esc), 3, true, &vis, 2, false), SidebarKey::CancelSearch);
    assert_eq!(route_sidebar_key(sk(KeyCode::Enter), 3, true, &vis, 2, false), SidebarKey::CommitSearch);
    assert_eq!(route_sidebar_key(sk(KeyCode::Backspace), 3, true, &vis, 2, false), SidebarKey::SearchPop);
    assert_eq!(route_sidebar_key(sk(KeyCode::Char('q')), 3, true, &vis, 2, false), SidebarKey::SearchPush('q'));
    assert_eq!(route_sidebar_key(sk(KeyCode::Down), 3, true, &vis, 2, false), SidebarKey::Select(0));
    assert_eq!(route_sidebar_key(sk(KeyCode::Down), 3, true, &[], 2, false), SidebarKey::Nothing);
    assert_eq!(route_sidebar_key(sk(KeyCode::Delete), 3, true, &vis, 2, false), SidebarKey::ConfirmDelete);
}

#[test]
fn cancelled_search_selection_stays_in_range() {
    assert_eq!(restored_selection(1, 3), 1);
    assert_eq!(restored_selection(7, 3), 2);
}
