use libllm_tui::keys::{KeyCode, KeyEvent, KeyModifiers};
use libllm_tui::preset::{
    config_field_for, handle_preset_dialog_key, new_name_base, new_preset_values, parse_flag,
    picker_start, picker_title, preset_save_name, sanitize_preset_name, selection_after_refresh,
    stale_preset_name, stop_sequences, PresetKind, PresetNameError, PresetPickerAction,
};

fn k(code: KeyCode) -> KeyEvent {
    KeyEvent::new(code, KeyModifiers::none())
}

fn names(v: &[&str]) -> Vec<String> {
    v.iter().map(|s| s.to_string()).collect()
}

#[test]
fn kinds() {
    assert_eq!(picker_title(PresetKind::Instruct), " Select Instruct Preset ");
    assert_eq!(config_field_for(PresetKind::Reasoning), 4);
    assert_eq!(new_name_base(PresetKind::Template), "template");
}

#[test]
fn preset_names_are_made_safe() {
    assert_eq!(sanitize_preset_name("a/b\\c"), Some("a_b_c".to_string()));
    assert_eq!(sanitize_preset_name("..hidden.."), Some("hidden".to_string()));
    assert_eq!(sanitize_preset_name("../x"), Some("_x".to_string()));
    assert_eq!(sanitize_preset_name("..."), None);
    assert_eq!(sanitize_preset_name(""), None);
}

#[test]
fn save_names() {
    assert_eq!(preset_save_name("  My Preset "), Ok("My Preset".to_string()));
    assert_eq!(preset_save_name("  "), Err(PresetNameError::Empty));
    assert_eq!(preset_save_name(" off "), Err(PresetNameError::Reserved));
    assert_eq!(preset_save_name("offline"), Ok("offline".to_string()));
}

#[test]
fn save_preset_does_not_delete_file_when_sanitized_names_collide() {
    // ".foo" is stored as "foo": saving the edit of ".foo" under "foo" must not remove
    // the file just written.
    assert_eq!(stale_preset_name(".foo", "foo"), None);
    assert_eq!(stale_preset_name("a/b", "a_b"), None);
    assert_eq!(stale_preset_name("old", "new"), Some("old".to_string()));
    assert_eq!(stale_preset_name("", "new"), None);
    assert_eq!(stale_preset_name("same", "same"), None);
}

#[test]
fn flags_and_stops() {
    assert!(parse_flag("true"));
    assert!(!parse_flag("True"));
    assert!(!parse_flag("yes"));
    assert_eq!(stop_sequences("</s>, <|im_end|> ,"), names(&["</s>", "<|im_end|>"]));
}

#[test]
fn preset_picker_keys() {
    let list = names(&["OFF", "ChatML"]);
    assert_eq!(handle_preset_dialog_key(&list, 0, k(KeyCode::Right)), PresetPickerAction::Continue);
    assert_eq!(handle_preset_dialog_key(&list, 0, k(KeyCode::Delete)), PresetPickerAction::Continue);
    assert_eq!(handle_preset_dialog_key(&list, 1, k(KeyCode::Right)), PresetPickerAction::Edit(1));
    assert_eq!(handle_preset_dialog_key(&list, 1, k(KeyCode::Delete)), PresetPickerAction::ConfirmDelete(1));
    assert_eq!(handle_preset_dialog_key(&list, 1, k(KeyCode::Enter)), PresetPickerAction::Choose(1));
    assert_eq!(handle_preset_dialog_key(&list, 1, k(KeyCode::Down)), PresetPickerAction::Paged);
    assert_eq!(handle_preset_dialog_key(&list, 1, k(KeyCode::Esc)), PresetPickerAction::Back);
    assert_eq!(handle_preset_dialog_key(&vec![], 0, k(KeyCode::Char('a'))), PresetPickerAction::Create);
    assert_eq!(handle_preset_dialog_key(&vec![], 0, k(KeyCode::Enter)), PresetPickerAction::Continue);
}

#[test]
fn picker_opens_on_the_current_preset() {
    let list = names(&["Default", "chatml", "Llama"]);
    assert_eq!(picker_start(&list, "ChatML"), 1);
    assert_eq!(picker_start(&list, "none"), 0);
    assert_eq!(selection_after_refresh(5, 3), 2);
    assert_eq!(selection_after_refresh(1, 3), 1);
    assert_eq!(selection_after_refresh(1, 0), 0);
}

#[test]
fn new_presets() {
    let v = new_preset_values(PresetKind::Instruct, "instruct-1".into());
    assert_eq!(v.len(), 12);
    assert_eq!(v[0], "instruct-1");
    assert_eq!(v[8], "");
    assert_eq!(v[9], "false");
    assert_eq!(new_preset_values(PresetKind::Template, "t".into()), names(&["t", "", "", ""]));
}
