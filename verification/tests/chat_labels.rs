use libllm_tui::chat_labels::{branch_indicator, role_label, summary_line, ChatRole};

#[test]
fn role_labels_use_names_only_with_a_character() {
    assert_eq!(role_label(ChatRole::User, true, Some("Mara"), "Aria"), "Mara");
    assert_eq!(role_label(ChatRole::User, false, Some("Mara"), "Aria"), "You");
    assert_eq!(role_label(ChatRole::Assistant, true, None, "Aria"), "Aria");
    assert_eq!(role_label(ChatRole::Assistant, true, None, ""), "Assistant");
    assert_eq!(role_label(ChatRole::Assistant, false, None, "Aria"), "Assistant");
    assert_eq!(role_label(ChatRole::System, true, None, "Aria"), "System");
    assert_eq!(role_label(ChatRole::Summary, true, None, "Aria"), "Summary");
}

#[test]
fn branch_indicator_and_summary_line() {
    assert_eq!(branch_indicator(1, 3), " [2/3]");
    assert_eq!(branch_indicator(0, 1), "");
    assert_eq!(summary_line(12), "--- Summary of 12 earlier messages ---");
}
