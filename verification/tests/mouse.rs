use libllm_tui::focus::Focus;
use libllm_tui::layout::Rect;
use libllm_tui::mouse::{
    chat_scroll_after, click_outside_focus, confirm_button_at, hit_test_list_dialog, route_mouse, scroll_dialog_key, sidebar_item_at,
    sidebar_scroll_after, ListDialogHit, MouseKind, MouseRoute,
};
use libllm_tui::keys::KeyCode;

fn areas() -> (Rect, Rect, Rect) {
    (Rect::new(0, 0, 20, 30), Rect::new(20, 0, 60, 25), Rect::new(20, 25, 60, 5))
}

#[test]
fn clicks_pick_the_pane() {
    let (s, c, i) = areas();
    assert_eq!(route_mouse(false, Focus::Input, MouseKind::LeftDown, s, c, i, 5, 5), MouseRoute::SidebarClick);
    assert_eq!(route_mouse(false, Focus::Input, MouseKind::LeftDown, s, c, i, 30, 5), MouseRoute::ChatClick);
    assert_eq!(route_mouse(false, Focus::Chat, MouseKind::LeftDown, s, c, i, 30, 26), MouseRoute::InputClick);
    assert_eq!(route_mouse(false, Focus::Chat, MouseKind::LeftDown, s, c, i, 90, 26), MouseRoute::Ignore);
    assert_eq!(route_mouse(false, Focus::AuthDialog, MouseKind::LeftDown, s, c, i, 5, 5), MouseRoute::DialogClick);
    assert_eq!(route_mouse(true, Focus::Input, MouseKind::LeftDown, s, c, i, 5, 5), MouseRoute::Ignore);
}

#[test]
fn wheel_and_moves() {
    let (s, c, i) = areas();
    assert_eq!(route_mouse(false, Focus::Input, MouseKind::ScrollUp, s, c, i, 30, 5), MouseRoute::ChatScroll(true));
    assert_eq!(route_mouse(false, Focus::Input, MouseKind::ScrollDown, s, c, i, 5, 5), MouseRoute::SidebarScroll(false));
    assert_eq!(route_mouse(false, Focus::BranchDialog, MouseKind::ScrollDown, s, c, i, 5, 5), MouseRoute::DialogScroll(false));
    assert_eq!(route_mouse(false, Focus::Input, MouseKind::Moved, s, c, i, 30, 5), MouseRoute::Hover(true));
    assert_eq!(route_mouse(false, Focus::Input, MouseKind::Moved, s, c, i, 5, 5), MouseRoute::Hover(false));
    assert_eq!(route_mouse(false, Focus::Input, MouseKind::LeftDrag, s, c, i, 30, 26), MouseRoute::InputDrag);
    assert_eq!(route_mouse(false, Focus::EditDialog, MouseKind::LeftDrag, s, c, i, 0, 0), MouseRoute::EditDrag);
}

#[test]
fn scroll_arithmetic() {
    assert_eq!(chat_scroll_after(10, true, 50), 7);
    assert_eq!(chat_scroll_after(2, true, 50), 0);
    assert_eq!(chat_scroll_after(10, false, 50), 13);
    assert_eq!(chat_scroll_after(49, false, 50), 50);
    assert_eq!(sidebar_scroll_after(None, true, 3), Some(0));
    assert_eq!(sidebar_scroll_after(Some(2), true, 3), Some(1));
    assert_eq!(sidebar_scroll_after(Some(2), false, 3), Some(2));
    assert_eq!(sidebar_scroll_after(Some(0), false, 3), Some(1));
    assert_eq!(sidebar_scroll_after(Some(0), false, 0), None);
}

#[test]
fn sidebar_rows_account_for_the_preview() {
    let area = Rect::new(0, 2, 20, 10);
    // row 3 is the first inner row
    assert_eq!(sidebar_item_at(3, area, 0, 5, Some(1), true), Some(0));
    assert_eq!(sidebar_item_at(4, area, 0, 5, Some(1), true), Some(1));
    assert_eq!(sidebar_item_at(5, area, 0, 5, Some(1), true), Some(1));
    assert_eq!(sidebar_item_at(6, area, 0, 5, Some(1), true), Some(2));
    assert_eq!(sidebar_item_at(6, area, 0, 5, Some(1), false), Some(3));
    assert_eq!(sidebar_item_at(9, area, 0, 5, Some(1), true), None);
    assert_eq!(sidebar_item_at(3, area, 2, 5, Some(1), true), Some(2));
}

#[test]
fn wheel_scrolls_list_dialogs_only() {
    let k = scroll_dialog_key(Focus::CharacterDialog, true).unwrap();
    assert_eq!(k.code, KeyCode::Up);
    assert!(!k.modifiers.control && !k.modifiers.shift && !k.modifiers.alt);
    assert_eq!(scroll_dialog_key(Focus::PresetPickerDialog, false).unwrap().code, KeyCode::Down);
    assert!(scroll_dialog_key(Focus::Input, true).is_none());
    assert!(scroll_dialog_key(Focus::ConfigDialog, false).is_none());
}

#[test]
fn list_dialog_hits() {
    let d = Rect::new(10, 5, 30, 12);
    assert_eq!(hit_test_list_dialog(d, 2, 2, None), ListDialogHit::Outside);
    assert_eq!(hit_test_list_dialog(d, 12, 16, Some(8)), ListDialogHit::SearchTitle);
    assert_eq!(hit_test_list_dialog(d, 25, 16, Some(8)), ListDialogHit::Items(Rect::new(11, 6, 28, 10)));
    assert_eq!(hit_test_list_dialog(d, 12, 8, None), ListDialogHit::Items(Rect::new(11, 6, 28, 10)));
}

#[test]
fn clicks_outside_dialogs_go_back() {
    assert_eq!(click_outside_focus(Focus::CharacterDialog, Focus::Chat), Some(Focus::Input));
    assert_eq!(click_outside_focus(Focus::SystemPromptDialog, Focus::Chat), Some(Focus::Chat));
    assert_eq!(click_outside_focus(Focus::PresetPickerDialog, Focus::Input), Some(Focus::ConfigDialog));
    assert_eq!(click_outside_focus(Focus::BaseThemePickerDialog, Focus::Input), Some(Focus::ThemeDialog));
    assert_eq!(click_outside_focus(Focus::WorldbookEditorDialog, Focus::Input), Some(Focus::WorldbookDialog));
    assert_eq!(click_outside_focus(Focus::EditDialog, Focus::Input), None);
    let d = Rect::new(10, 5, 40, 6);
    assert_eq!(confirm_button_at(d, 29), 0);
    assert_eq!(confirm_button_at(d, 30), 1);
}
