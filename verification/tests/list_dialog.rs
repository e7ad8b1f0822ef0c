use libllm_tui::keys::{KeyCode, KeyEvent, KeyModifiers};
use libllm_tui::list_dialog::{
    list_dialog_action, loaded_character_message, persona_load_failed_message,
    persona_set_message, ListDialogAction,
};

fn k(code: KeyCode) -> KeyEvent {
    KeyEvent::new(code, KeyModifiers::none())
}

#[test]
fn empty_picker_only_creates_or_closes() {
    assert_eq!(list_dialog_action(k(KeyCode::Char('a')), true, false), ListDialogAction::Create);
    assert_eq!(list_dialog_action(k(KeyCode::Esc), true, false), ListDialogAction::Close);
    assert_eq!(list_dialog_action(k(KeyCode::Enter), true, false), ListDialogAction::Nothing);
    assert_eq!(list_dialog_action(k(KeyCode::Delete), true, true), ListDialogAction::Nothing);
}

#[test]
fn picker_keys_on_a_list() {
    assert_eq!(list_dialog_action(k(KeyCode::Enter), false, false), ListDialogAction::Choose);
    assert_eq!(list_dialog_action(k(KeyCode::Right), false, false), ListDialogAction::Edit);
    assert_eq!(list_dialog_action(k(KeyCode::Char('a')), false, false), ListDialogAction::Create);
    assert_eq!(
        list_dialog_action(k(KeyCode::Backspace), false, false),
        ListDialogAction::ConfirmDelete
    );
    assert_eq!(list_dialog_action(k(KeyCode::Delete), false, false), ListDialogAction::ConfirmDelete);
    assert_eq!(list_dialog_action(k(KeyCode::Esc), false, false), ListDialogAction::Close);
    assert_eq!(list_dialog_action(k(KeyCode::Char('x')), false, false), ListDialogAction::Nothing);
}

#[test]
fn space_chooses_only_in_the_worldbook_picker() {
    assert_eq!(list_dialog_action(k(KeyCode::Char(' ')), false, true), ListDialogAction::Choose);
    assert_eq!(list_dialog_action(k(KeyCode::Char(' ')), false, false), ListDialogAction::Nothing);
}

#[test]
fn picker_status_messages() {
    assert_eq!(loaded_character_message("Aria"), "Loaded character: Aria");
    assert_eq!(persona_set_message("Bob"), "Persona set to 'Bob'.");
    assert_eq!(persona_load_failed_message("bob"), "Failed to load persona 'bob'.");
}
