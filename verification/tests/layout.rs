use libllm_tui::layout::{
    chat_scroll_after_render,
    centered_rect, format_count, input_hint, format_token_count, hint_area, hit_test_chat_message,
    queue_user_label, split_chat_area_for_queue, tab_body_rect, truncate_with_ellipsis, Rect,
};

#[test]
fn format_count_uses_singular_for_one() {
    assert_eq!(format_count(1, "token"), "1 token");
}

#[test]
fn format_count_uses_plural_for_zero_and_many() {
    assert_eq!(format_count(0, "worldbook"), "0 worldbooks");
    assert_eq!(format_count(2, "worldbook"), "2 worldbooks");
}

#[test]
fn truncate_with_ellipsis_leaves_short_text_unchanged() {
    assert_eq!(truncate_with_ellipsis("model", 10), "model");
}

#[test]
fn truncate_with_ellipsis_caps_long_text() {
    assert_eq!(truncate_with_ellipsis("abcdefghijklmnopqrstuvwxyz", 10), "abcdefg...");
}

#[test]
fn truncate_with_ellipsis_skips_suffix_for_tiny_limit() {
    assert_eq!(truncate_with_ellipsis("abcdef", 3), "abc");
}

#[test]
fn format_token_count_uses_singular_and_plural() {
    assert_eq!(format_token_count(0), "0 tokens");
    assert_eq!(format_token_count(1), "1 token");
    assert_eq!(format_token_count(2), "2 tokens");
}

#[test]
fn truncate_counts_characters_not_bytes() {
    assert_eq!(truncate_with_ellipsis("ééééééé", 5), "éé...");
}

#[test]
fn centered_rect_centers_and_clamps() {
    let area = Rect::new(10, 5, 100, 40);
    assert_eq!(centered_rect(20, 10, area), Rect::new(50, 20, 20, 10));
    assert_eq!(centered_rect(200, 100, area), Rect::new(10, 5, 100, 40));
    assert_eq!(Rect::new(65530, 0, 10, 1).width, 5);
}

#[test]
fn hints_need_room_below() {
    let area = Rect::new(0, 0, 80, 24);
    let dialog = Rect::new(10, 5, 60, 10);
    assert_eq!(hint_area(dialog, area, 2), Some(Rect::new(10, 15, 60, 2)));
    assert_eq!(hint_area(Rect::new(10, 5, 60, 19), area, 1), None);
    assert_eq!(hint_area(dialog, area, 0), None);
}

#[test]
fn tab_body_inside_border_and_tab_bar() {
    assert_eq!(tab_body_rect(Rect::new(2, 3, 78, 20)), Rect::new(3, 7, 76, 15));
    assert_eq!(tab_body_rect(Rect::new(0, 0, 1, 3)), Rect::new(1, 4, 0, 0));
}

#[test]
fn queue_pane_split() {
    let chat = Rect::new(0, 1, 80, 30);
    let (m, q) = split_chat_area_for_queue(chat, 2, 4);
    assert_eq!(m, Rect::new(0, 1, 80, 24));
    assert_eq!(q, Some(Rect::new(0, 25, 80, 6)));
    let (m, q) = split_chat_area_for_queue(chat, 1, 100);
    assert_eq!(m.height, 15);
    assert_eq!(q.unwrap().height, 15);
    assert_eq!(split_chat_area_for_queue(chat, 0, 4), (chat, None));
    assert_eq!(split_chat_area_for_queue(Rect::new(0, 0, 80, 7), 1, 1), (Rect::new(0, 0, 80, 7), None));
}

#[test]
fn hit_test_maps_rows_to_messages() {
    let chat = Rect::new(0, 0, 80, 20);
    let heights = [3u16, 2, 4];
    assert_eq!(hit_test_chat_message(&heights, chat, 0, 0), None);
    assert_eq!(hit_test_chat_message(&heights, chat, 0, 1), Some(0));
    assert_eq!(hit_test_chat_message(&heights, chat, 0, 4), Some(1));
    assert_eq!(hit_test_chat_message(&heights, chat, 2, 4), Some(2));
    assert_eq!(hit_test_chat_message(&heights, chat, 0, 10), None);
    assert_eq!(hit_test_chat_message(&heights, chat, 0, 19), None);
}

#[test]
fn queue_label_uses_persona_only_with_a_character() {
    assert_eq!(queue_user_label(true, Some("Mara")), "Mara");
    assert_eq!(queue_user_label(false, Some("Mara")), "You");
    assert_eq!(queue_user_label(true, None), "You");
}

#[test]
fn input_hint_depends_on_the_chat_cursor() {
    assert_eq!(input_hint(false, true), None);
    assert_eq!(input_hint(true, true), Some(" Enter to edit, Esc to cancel "));
    assert_eq!(input_hint(true, false), Some(" Up arrow to edit, Enter to send "));
}

#[test]
fn chat_scroll_follows_the_reply_or_the_cursor() {
    assert_eq!(chat_scroll_after_render(3, true, true, None, 10, 50), 40);
    assert_eq!(chat_scroll_after_render(3, false, true, None, 10, 50), 3);
    assert_eq!(chat_scroll_after_render(45, false, false, None, 10, 50), 40);
    assert_eq!(chat_scroll_after_render(20, true, false, Some((5, 8)), 10, 50), 0);
    assert_eq!(chat_scroll_after_render(20, true, false, Some((15, 18)), 10, 50), 15);
    assert_eq!(chat_scroll_after_render(20, true, false, Some((25, 35)), 10, 50), 25);
    assert_eq!(chat_scroll_after_render(20, true, false, Some((22, 28)), 10, 50), 20);
    assert_eq!(chat_scroll_after_render(0, true, false, None, 10, 5), 0);
}
