use libllm_tui::selection::{generate_unique_name, move_selection_down, move_selection_up, sanitize_import_name};

#[test]
fn selection_moves_within_bounds() {
    let mut s = 0;
    move_selection_up(&mut s);
    assert_eq!(s, 0);
    move_selection_down(&mut s, 3);
    move_selection_down(&mut s, 3);
    move_selection_down(&mut s, 3);
    assert_eq!(s, 2);
    move_selection_up(&mut s);
    assert_eq!(s, 1);
    let mut t = 4;
    move_selection_down(&mut t, 0);
    assert_eq!(t, 4);
}

#[test]
fn import_names_keep_safe_characters() {
    assert_eq!(sanitize_import_name("  My Char!.json "), Some("My Charjson".to_string()));
    assert_eq!(sanitize_import_name("snake_case-name"), Some("snake_case-name".to_string()));
    assert_eq!(sanitize_import_name("Ünïcödé 7"), Some("Ünïcödé 7".to_string()));
    assert_eq!(sanitize_import_name("!!!"), None);
    assert_eq!(sanitize_import_name("   "), None);
    assert_eq!(sanitize_import_name(&"a".repeat(33)), None);
    assert_eq!(sanitize_import_name(&"a".repeat(32)), Some("a".repeat(32)));
}

#[test]
fn unique_name_keeps_free_base() {
    let existing = vec!["Other".to_owned()];
    assert_eq!(generate_unique_name("Alice", &existing), Some("Alice".to_owned()));
}

#[test]
fn unique_name_numbers_clashes_ignoring_case() {
    let existing = vec!["alice".to_owned(), "ALICE-1".to_owned(), "Bob".to_owned()];
    assert_eq!(generate_unique_name("Alice", &existing), Some("Alice-2".to_owned()));
}
