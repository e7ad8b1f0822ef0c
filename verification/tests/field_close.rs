use libllm_tui::field_close::{
    close_focus, field_dialog_close_step, field_follow_up, follow_up_focus, DialogKind,
    FieldCloseStep, FieldFollowUp,
};
use libllm_tui::focus::Focus;
use libllm_tui::preset::PresetKind;
use libllm_tui::status::{StatusLevel, StatusMessage};

fn names(v: &[&str]) -> Vec<String> {
    v.iter().map(|s| s.to_string()).collect()
}

#[test]
fn unedited_editors_report_no_changes() {
    let mut st: Option<StatusMessage> = None;
    let r = field_dialog_close_step(DialogKind::CharacterEditor, false, false, "a", "b", "B", &vec![], &mut st);
    assert_eq!(r, FieldCloseStep::NoChanges);
    let m = st.unwrap();
    assert_eq!((m.text.as_str(), m.level), ("No changes found.", StatusLevel::Info));
    assert_eq!(close_focus(DialogKind::CharacterEditor, &r, Focus::Input), Some(Focus::CharacterDialog));
}

#[test]
fn taken_names_keep_the_editor_open() {
    let mut st: Option<StatusMessage> = None;
    let existing = names(&["Alice", "Bob"]);
    let r = field_dialog_close_step(DialogKind::PersonaEditor, false, true, "Alice", "Bob", "Bob", &existing, &mut st);
    assert_eq!(r, FieldCloseStep::NameTaken);
    let m = st.unwrap();
    assert_eq!((m.text.as_str(), m.level), ("Name 'Bob' is already in use.", StatusLevel::Error));
    assert_eq!(close_focus(DialogKind::PersonaEditor, &r, Focus::Input), None);
}

#[test]
fn saving_renames_or_keeps_the_key() {
    let mut st: Option<StatusMessage> = None;
    let existing = names(&["alice", "bob"]);
    assert_eq!(
        field_dialog_close_step(DialogKind::CharacterEditor, false, true, "alice", "carol", "Carol", &existing, &mut st),
        FieldCloseStep::Save { rename_from: Some("alice".to_owned()) }
    );
    assert_eq!(
        field_dialog_close_step(DialogKind::CharacterEditor, false, true, "alice", "alice", "Alice", &existing, &mut st),
        FieldCloseStep::Save { rename_from: None }
    );
    assert_eq!(
        field_dialog_close_step(DialogKind::PersonaEditor, false, true, "", "Dan", "Dan", &existing, &mut st),
        FieldCloseStep::Save { rename_from: None }
    );
    assert_eq!(
        field_dialog_close_step(DialogKind::SystemPromptEditor, false, true, "", "p", "p", &existing, &mut st),
        FieldCloseStep::ApplyToSession
    );
    assert_eq!(
        field_dialog_close_step(DialogKind::SystemPromptEditor, false, true, "old", "new", "new", &existing, &mut st),
        FieldCloseStep::Save { rename_from: Some("old".to_owned()) }
    );
    assert!(st.is_none());
}

#[test]
fn locked_and_theme_editors() {
    let mut st: Option<StatusMessage> = None;
    let r = field_dialog_close_step(DialogKind::PersonaEditor, true, true, "a", "b", "b", &vec![], &mut st);
    assert_eq!(r, FieldCloseStep::CloseOnly);
    assert_eq!(close_focus(DialogKind::PersonaEditor, &r, Focus::Chat), Some(Focus::Input));
    let r = field_dialog_close_step(DialogKind::SystemPromptEditor, true, false, "a", "a", "a", &vec![], &mut st);
    assert_eq!(r, FieldCloseStep::CloseOnly);
    assert_eq!(close_focus(DialogKind::SystemPromptEditor, &r, Focus::Chat), Some(Focus::Chat));
    let r = field_dialog_close_step(DialogKind::Theme, false, false, "", "", "", &vec![], &mut st);
    assert_eq!(r, FieldCloseStep::Save { rename_from: None });
    assert_eq!(close_focus(DialogKind::Theme, &r, Focus::Chat), None);
    assert!(st.is_none());
}

#[test]
fn selector_and_action_rows() {
    assert_eq!(field_follow_up(DialogKind::Config, false, 0, 1), FieldFollowUp::PresetPicker(PresetKind::Template));
    assert_eq!(field_follow_up(DialogKind::Config, false, 0, 2), FieldFollowUp::PresetPicker(PresetKind::Instruct));
    assert_eq!(field_follow_up(DialogKind::Config, false, 0, 3), FieldFollowUp::PresetPicker(PresetKind::Reasoning));
    assert_eq!(field_follow_up(DialogKind::Config, true, 0, 1), FieldFollowUp::Nothing);
    assert_eq!(field_follow_up(DialogKind::Theme, false, 0, 0), FieldFollowUp::BaseThemePicker);
    assert_eq!(field_follow_up(DialogKind::Theme, true, 0, 2), FieldFollowUp::ConfirmResetColors);
    assert_eq!(field_follow_up(DialogKind::Theme, true, 0, 3), FieldFollowUp::RevertTheme);
    assert_eq!(follow_up_focus(FieldFollowUp::RevertTheme), Some(Focus::Input));
    assert_eq!(follow_up_focus(FieldFollowUp::ConfirmResetColors), Some(Focus::DeleteConfirmDialog));
    assert_eq!(follow_up_focus(FieldFollowUp::Nothing), None);
}
