use libllm_tui::keys::{KeyCode, KeyEvent, KeyModifiers};
use libllm_tui::status::{StatusLevel, StatusMessage};
use libllm_tui::worldbook::{
    add_new_entry, check_worldbook_save, delete_selected_entry, entry_to_values, handle_worldbook_editor_key, lists_name, parse_keys,
    rename_in_list, selection_after_delete, toggle_worldbook, values_to_entry, worldbook_state,
    EditorKey, SaveCheck, WorldbookEditorState, WorldbookEntry, WorldbookState,
};

fn names(v: &[&str]) -> Vec<String> {
    v.iter().map(|s| s.to_string()).collect()
}

fn k(code: KeyCode) -> KeyEvent {
    KeyEvent::new(code, KeyModifiers::none())
}

#[test]
fn state_prefers_the_config() {
    let config = names(&["lore"]);
    let session = names(&["lore", "city"]);
    assert_eq!(worldbook_state(&config, &session, "lore"), WorldbookState::Global);
    assert_eq!(worldbook_state(&config, &session, "city"), WorldbookState::Session);
    assert_eq!(worldbook_state(&config, &session, "x"), WorldbookState::Off);
    assert!(lists_name(&session, "city"));
    assert!(!lists_name(&session, "cit"));
}

#[test]
fn toggling_cycles_off_session_global_off() {
    let mut config = names(&["a"]);
    let mut session: Vec<String> = vec![];
    assert!(!toggle_worldbook(&mut config, &mut session, "w"));
    assert_eq!(session, names(&["w"]));
    assert_eq!(worldbook_state(&config, &session, "w"), WorldbookState::Session);
    assert!(toggle_worldbook(&mut config, &mut session, "w"));
    assert_eq!(config, names(&["a", "w"]));
    assert!(session.is_empty());
    assert_eq!(worldbook_state(&config, &session, "w"), WorldbookState::Global);
    assert!(toggle_worldbook(&mut config, &mut session, "w"));
    assert_eq!(config, names(&["a"]));
    assert_eq!(worldbook_state(&config, &session, "w"), WorldbookState::Off);
}

#[test]
fn rename_keeps_the_place() {
    let mut list = names(&["a", "b", "b"]);
    assert!(rename_in_list(&mut list, "b", "c"));
    assert_eq!(list, names(&["a", "c", "b"]));
    assert!(!rename_in_list(&mut list, "z", "c"));
    assert_eq!(list, names(&["a", "c", "b"]));
}

#[test]
fn selection_after_deleting_the_last_entry() {
    assert_eq!(selection_after_delete(2, 2), 1);
    assert_eq!(selection_after_delete(0, 3), 0);
    assert_eq!(selection_after_delete(0, 0), 0);
}

#[test]
fn save_checks() {
    let list = names(&["lore", "city"]);
    let mut status: Option<StatusMessage> = None;
    assert_eq!(check_worldbook_save("lore", "lore", false, &list, &mut status), SaveCheck::NoChanges);
    let m = status.take().unwrap();
    assert_eq!((m.text.as_str(), m.level), ("No changes found.", StatusLevel::Info));
    assert_eq!(check_worldbook_save("lore", "city", false, &list, &mut status), SaveCheck::NameTaken);
    assert_eq!(status.take().unwrap().text, "Name 'city' is already in use.");
    assert_eq!(check_worldbook_save("lore", "lore", true, &list, &mut status), SaveCheck::Save { rename: false });
    assert_eq!(check_worldbook_save("lore", "saga", false, &list, &mut status), SaveCheck::Save { rename: true });
    assert_eq!(check_worldbook_save("", "saga", true, &list, &mut status), SaveCheck::Save { rename: false });
    assert!(status.is_none());
}

#[test]
fn editor_keys() {
    let mut s = WorldbookEditorState { name: "ab".into(), name_selected: true, name_editing: false, selected: 0 };
    assert_eq!(handle_worldbook_editor_key(&mut s, k(KeyCode::Enter), 2), EditorKey::Continue);
    assert!(s.name_editing);
    handle_worldbook_editor_key(&mut s, k(KeyCode::Char('c')), 2);
    handle_worldbook_editor_key(&mut s, k(KeyCode::Backspace), 2);
    handle_worldbook_editor_key(&mut s, k(KeyCode::Char('d')), 2);
    assert_eq!(s.name, "abd");
    handle_worldbook_editor_key(&mut s, k(KeyCode::Esc), 2);
    assert!(!s.name_editing && s.name_selected);
    handle_worldbook_editor_key(&mut s, k(KeyCode::Down), 2);
    assert!(!s.name_selected);
    assert_eq!(handle_worldbook_editor_key(&mut s, k(KeyCode::Enter), 2), EditorKey::OpenEntry(0));
    assert_eq!(handle_worldbook_editor_key(&mut s, k(KeyCode::Delete), 2), EditorKey::ConfirmDelete(0));
    assert_eq!(handle_worldbook_editor_key(&mut s, k(KeyCode::Down), 2), EditorKey::Paged);
    assert_eq!(handle_worldbook_editor_key(&mut s, k(KeyCode::Up), 2), EditorKey::Continue);
    assert!(s.name_selected);
    assert_eq!(handle_worldbook_editor_key(&mut s, k(KeyCode::Esc), 2), EditorKey::SaveAndClose);
    assert_eq!(handle_worldbook_editor_key(&mut s, k(KeyCode::Char('a')), 2), EditorKey::AddEntry);
}

#[test]
fn name_is_capped() {
    let mut s = WorldbookEditorState { name: "x".repeat(32), name_selected: true, name_editing: true, selected: 0 };
    assert_eq!(handle_worldbook_editor_key(&mut s, k(KeyCode::Char('y')), 0), EditorKey::RejectFlash);
    assert_eq!(s.name.len(), 32);
}

#[test]
fn keys_split_at_commas() {
    assert_eq!(parse_keys(" dragon, cave ,,  gold"), names(&["dragon", "cave", "gold"]));
    assert!(parse_keys("").is_empty());
    assert!(parse_keys(" , ").is_empty());
}

fn entry() -> WorldbookEntry {
    WorldbookEntry {
        keys: names(&["dragon", "cave"]),
        secondary_keys: vec![],
        selective: true,
        content: "A red dragon.\nIt sleeps.".into(),
        constant: false,
        enabled: true,
        order: -5,
        depth: 4,
        case_sensitive: false,
    }
}

#[test]
fn entry_round_trips_through_the_form() {
    let e = entry();
    let v = entry_to_values(&e);
    assert_eq!(v, names(&["dragon, cave", "A red dragon.\nIt sleeps.", "true", "", "false", "true", "-5", "4", "false"]));
    assert_eq!(values_to_entry(&v, &e), e);
}

#[test]
fn bad_numbers_keep_the_old_values() {
    let e = entry();
    let v = names(&["k", "c", "TRUE", "s1,s2", "True", "no", "x", "-1", "tRuE"]);
    let out = values_to_entry(&v, &e);
    assert_eq!(out.keys, names(&["k"]));
    assert_eq!(out.secondary_keys, names(&["s1", "s2"]));
    assert!(out.selective && out.constant && !out.enabled && out.case_sensitive);
    assert_eq!(out.order, -5);
    assert_eq!(out.depth, 4);
}

#[test]
fn unchanged_entry_reads_back_as_itself() {
    let e = WorldbookEntry {
        keys: names(&["dragon", "red cave"]),
        secondary_keys: names(&["fire"]),
        selective: true,
        content: "x".into(),
        constant: true,
        enabled: false,
        order: i64::MIN,
        depth: 0,
        case_sensitive: true,
    };
    let other = entry();
    assert_eq!(values_to_entry(&entry_to_values(&e), &other), e);
}

#[test]
fn new_entry_goes_last_with_defaults() {
    let mut entries = vec![entry()];
    let idx = add_new_entry(&mut entries);
    assert_eq!(idx, 1);
    assert_eq!(entries.len(), 2);
    let e = &entries[1];
    assert!(e.keys.is_empty() && e.secondary_keys.is_empty() && e.content.is_empty());
    assert!(e.enabled && !e.selective && !e.constant && !e.case_sensitive);
    assert_eq!((e.order, e.depth), (10, 4));
}

#[test]
fn deleting_the_last_entry_moves_the_selection_up() {
    let mut entries = vec![entry(), entry(), entry()];
    entries[2].order = 99;
    let mut sel = 2;
    delete_selected_entry(&mut entries, &mut sel);
    assert_eq!(entries.len(), 2);
    assert_eq!(sel, 1);
    let mut sel = 0;
    delete_selected_entry(&mut entries, &mut sel);
    assert_eq!(entries.len(), 1);
    assert_eq!(sel, 0);
    delete_selected_entry(&mut entries, &mut sel);
    assert!(entries.is_empty());
    assert_eq!(sel, 0);
}
