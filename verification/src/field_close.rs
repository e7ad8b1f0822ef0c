//! Closing the field editors (config, theme, presets, personas, system prompts,
//! characters, worldbook entries): whether anything is saved, under which name, what
//! the status line says, and where the keyboard goes afterwards; and what the
//! selector and action rows of the tabbed editors open.

use vstd::prelude::*;
use crate::focus::Focus;
use crate::preset::PresetKind;
use crate::status::{set_status, status_text_spec, StatusLevel, StatusMessage};
use crate::text::{push_str, string_of, string_views};
use crate::worldbook::lists_name;

verus! {

/// The field editor that has the keyboard.
#[derive(Debug, Clone, Copy, PartialEq, Eq, Structural)]
pub enum DialogKind {
    Config,
    Theme,
    PresetEditor,
    PersonaEditor,
    CharacterEditor,
    SystemPromptEditor,
    WorldbookEntryEditor,
}

/// What closing a field editor does.
#[derive(Debug, Clone, PartialEq, Eq)]
pub enum FieldCloseStep {
    /// Close without saving and without a message (a persona fixed on the command
    /// line, a system prompt shown read-only).
    CloseOnly,
    /// Nothing was edited: say "No changes found." and close.
    NoChanges,
    /// The new name belongs to another item: say so and keep the editor open.
    NameTaken,
    /// Save the edits; under a new name, `rename_from` is the item's old key, whose
    /// stored copy is removed first.
    Save { rename_from: Option<String> },
    /// A system prompt that has no stored file: apply it to the session only.
    ApplyToSession,
}

pub open spec fn no_changes_text() -> Seq<char> {
    "No changes found."@
}

pub open spec fn name_in_use_text(name: Seq<char>) -> Seq<char> {
    "Name '"@ + name + "' is already in use."@
}

/// Whether the edited item takes a key that another item already has.
pub open spec fn key_clash(original_key: Seq<char>, new_key: Seq<char>, existing: Seq<Seq<char>>) -> bool {
    new_key != original_key && existing.contains(new_key)
}

/// The step for closing editor `kind` (see `field_dialog_close_step`).
pub open spec fn close_step_spec(
    kind: DialogKind,
    read_only: bool,
    has_changes: bool,
    original_key: Seq<char>,
    new_key: Seq<char>,
    existing: Seq<Seq<char>>,
) -> StepView {
    match kind {
        DialogKind::Theme => StepView::Save(None),
        DialogKind::Config | DialogKind::PresetEditor | DialogKind::WorldbookEntryEditor =>
            if !has_changes {
                StepView::NoChanges
            } else {
                StepView::Save(None)
            },
        DialogKind::PersonaEditor =>
            if read_only {
                StepView::CloseOnly
            } else if !has_changes {
                StepView::NoChanges
            } else if key_clash(original_key, new_key, existing) {
                StepView::NameTaken
            } else {
                StepView::Save(
                    if original_key.len() > 0 && original_key != new_key {
                        Some(original_key)
                    } else {
                        None
                    },
                )
            },
        DialogKind::SystemPromptEditor =>
            if read_only {
                StepView::CloseOnly
            } else if !has_changes {
                StepView::NoChanges
            } else if key_clash(original_key, new_key, existing) {
                StepView::NameTaken
            } else if original_key.len() == 0 {
                StepView::ApplyToSession
            } else {
                StepView::Save(
                    if original_key != new_key {
                        Some(original_key)
                    } else {
                        None
                    },
                )
            },
        DialogKind::CharacterEditor =>
            if !has_changes {
                StepView::NoChanges
            } else if key_clash(original_key, new_key, existing) {
                StepView::NameTaken
            } else {
                StepView::Save(
                    if original_key != new_key {
                        Some(original_key)
                    } else {
                        None
                    },
                )
            },
    }
}

/// A close step as a value of the model: the old key of a rename as its characters.
pub enum StepView {
    CloseOnly,
    NoChanges,
    NameTaken,
    Save(Option<Seq<char>>),
    ApplyToSession,
}

/// The model of a close step.
pub open spec fn step_view(r: FieldCloseStep) -> StepView {
    match r {
        FieldCloseStep::CloseOnly => StepView::CloseOnly,
        FieldCloseStep::NoChanges => StepView::NoChanges,
        FieldCloseStep::NameTaken => StepView::NameTaken,
        FieldCloseStep::Save { rename_from } => StepView::Save(
            match rename_from {
                Some(k) => Some(k@),
                None => None,
            },
        ),
        FieldCloseStep::ApplyToSession => StepView::ApplyToSession,
    }
}

/// What closing field editor `kind` does. `read_only` is whether a persona is fixed on
/// the command line or a system prompt is shown read-only (other editors ignore it);
/// `has_changes` whether any field was edited. Items are told apart by key: the name
/// for personas and system prompts, the slug of the name for characters.
/// `original_key` is the edited item's key before editing (empty for a new item),
/// `new_key` its key from the edited name, `existing_keys` the keys of all stored
/// items, and `new_name` the edited name, which the clash message quotes.
///
/// The theme editor always saves. The config, preset and worldbook-entry editors save
/// when something changed. The persona, system-prompt and character editors refuse a
/// key that another item has, and otherwise save, removing the old copy when the key
/// changed (a persona without a stored file, and a system prompt without one, keep
/// none; such a system prompt only goes to the session). Unedited editors say "No
/// changes found."; a clash says "Name '<name>' is already in use.".
pub fn field_dialog_close_step(
    kind: DialogKind,
    read_only: bool,
    has_changes: bool,
    original_key: &str,
    new_key: &str,
    new_name: &str,
    existing_keys: &Vec<String>,
    status: &mut Option<StatusMessage>,
) -> (r: FieldCloseStep)
    ensures
        step_view(r) == close_step_spec(
            kind,
            read_only,
            has_changes,
            original_key@,
            new_key@,
            string_views(existing_keys@),
        ),
        r == FieldCloseStep::NoChanges ==> (*final(status) matches Some(m) && m.text@
            == status_text_spec(no_changes_text()) && m.level == StatusLevel::Info),
        r == FieldCloseStep::NameTaken ==> (*final(status) matches Some(m) && m.text@
            == status_text_spec(name_in_use_text(new_name@)) && m.level == StatusLevel::Error),
        r != FieldCloseStep::NoChanges && r != FieldCloseStep::NameTaken ==> *final(status)
            == *old(status),
{
    let uses_names = match kind {
        DialogKind::PersonaEditor | DialogKind::SystemPromptEditor | DialogKind::CharacterEditor => true,
        _ => false,
    };
    if let DialogKind::Theme = kind {
        return FieldCloseStep::Save { rename_from: None };
    }
    if read_only {
        match kind {
            DialogKind::PersonaEditor | DialogKind::SystemPromptEditor => {
                return FieldCloseStep::CloseOnly;
            },
            _ => {},
        }
    }
    if !has_changes {
        set_status(status, String::from_str("No changes found."), StatusLevel::Info);
        return FieldCloseStep::NoChanges;
    }
    if !uses_names {
        return FieldCloseStep::Save { rename_from: None };
    }
    let orig = String::from_str(original_key);
    let new = String::from_str(new_key);
    let renamed = !(orig == new);
    if renamed && lists_name(existing_keys, new_key) {
        let mut m: Vec<char> = Vec::new();
        push_str(&mut m, "Name '");
        push_str(&mut m, new_name);
        push_str(&mut m, "' is already in use.");
        let text = string_of(m.as_slice());
        set_status(status, text, StatusLevel::Error);
        return FieldCloseStep::NameTaken;
    }
    let empty_original = crate::text::char_count(original_key) == 0;
    match kind {
        DialogKind::PersonaEditor => {
            if !empty_original && renamed {
                FieldCloseStep::Save { rename_from: Some(orig) }
            } else {
                FieldCloseStep::Save { rename_from: None }
            }
        },
        DialogKind::SystemPromptEditor => {
            if empty_original {
                FieldCloseStep::ApplyToSession
            } else if renamed {
                FieldCloseStep::Save { rename_from: Some(orig) }
            } else {
                FieldCloseStep::Save { rename_from: None }
            }
        },
        _ => {
            if renamed {
                FieldCloseStep::Save { rename_from: Some(orig) }
            } else {
                FieldCloseStep::Save { rename_from: None }
            }
        },
    }
}

/// Where the keyboard goes after closing editor `kind` with `step`: `None` when the
/// editor stays open (a clash) or the editor leaves the focus alone (config, theme).
/// `return_focus` is where a system-prompt editor was opened from.
pub open spec fn close_focus_spec(kind: DialogKind, step: FieldCloseStep, return_focus: Focus) -> Option<Focus> {
    if step == FieldCloseStep::NameTaken {
        None
    } else {
        match kind {
            DialogKind::Config | DialogKind::Theme => None,
            DialogKind::PresetEditor => Some(Focus::PresetPickerDialog),
            DialogKind::PersonaEditor => if step == FieldCloseStep::CloseOnly {
                Some(Focus::Input)
            } else {
                Some(Focus::PersonaDialog)
            },
            DialogKind::SystemPromptEditor => Some(return_focus),
            DialogKind::CharacterEditor => Some(Focus::CharacterDialog),
            DialogKind::WorldbookEntryEditor => Some(Focus::WorldbookEditorDialog),
        }
    }
}

/// Where the keyboard goes after closing editor `kind` with `step` (see
/// `close_focus_spec`).
pub fn close_focus(kind: DialogKind, step: &FieldCloseStep, return_focus: Focus) -> (r: Option<Focus>)
    ensures
        r == close_focus_spec(kind, *step, return_focus),
{
    if let FieldCloseStep::NameTaken = step {
        return None;
    }
    match kind {
        DialogKind::Config | DialogKind::Theme => None,
        DialogKind::PresetEditor => Some(Focus::PresetPickerDialog),
        DialogKind::PersonaEditor => {
            if let FieldCloseStep::CloseOnly = step {
                Some(Focus::Input)
            } else {
                Some(Focus::PersonaDialog)
            }
        },
        DialogKind::SystemPromptEditor => Some(return_focus),
        DialogKind::CharacterEditor => Some(Focus::CharacterDialog),
        DialogKind::WorldbookEntryEditor => Some(Focus::WorldbookEditorDialog),
    }
}

/// What a selector or action row of a tabbed editor opens.
#[derive(Debug, Clone, Copy, PartialEq, Eq, Structural)]
pub enum FieldFollowUp {
    /// The preset picker of this kind (config editor, General tab: template,
    /// instruct and reasoning rows).
    PresetPicker(PresetKind),
    /// The base-theme picker (theme editor, first row).
    BaseThemePicker,
    /// Ask whether to reset every color override (theme editor, third row); the
    /// confirmation opens on its second button.
    ConfirmResetColors,
    /// Drop the edits, reload the saved theme and close (theme editor, fourth row);
    /// the keyboard goes back to the input.
    RevertTheme,
    /// The row opens nothing.
    Nothing,
}

/// What the selector row (`is_action` false) or action row (`is_action` true) at
/// (`section`, `field`) of editor `kind` opens.
pub open spec fn follow_up_spec(kind: DialogKind, is_action: bool, section: usize, field: usize) -> FieldFollowUp {
    match kind {
        DialogKind::Config => if !is_action && section == 0 && field == 1 {
            FieldFollowUp::PresetPicker(PresetKind::Template)
        } else if !is_action && section == 0 && field == 2 {
            FieldFollowUp::PresetPicker(PresetKind::Instruct)
        } else if !is_action && section == 0 && field == 3 {
            FieldFollowUp::PresetPicker(PresetKind::Reasoning)
        } else {
            FieldFollowUp::Nothing
        },
        DialogKind::Theme => if !is_action && section == 0 && field == 0 {
            FieldFollowUp::BaseThemePicker
        } else if is_action && section == 0 && field == 2 {
            FieldFollowUp::ConfirmResetColors
        } else if is_action && section == 0 && field == 3 {
            FieldFollowUp::RevertTheme
        } else {
            FieldFollowUp::Nothing
        },
        _ => FieldFollowUp::Nothing,
    }
}

/// What the selector or action row at (`section`, `field`) of editor `kind` opens.
pub fn field_follow_up(kind: DialogKind, is_action: bool, section: usize, field: usize) -> (r: FieldFollowUp)
    ensures
        r == follow_up_spec(kind, is_action, section, field),
{
    match kind {
        DialogKind::Config => {
            if !is_action && section == 0 && field == 1 {
                FieldFollowUp::PresetPicker(PresetKind::Template)
            } else if !is_action && section == 0 && field == 2 {
                FieldFollowUp::PresetPicker(PresetKind::Instruct)
            } else if !is_action && section == 0 && field == 3 {
                FieldFollowUp::PresetPicker(PresetKind::Reasoning)
            } else {
                FieldFollowUp::Nothing
            }
        },
        DialogKind::Theme => {
            if !is_action && section == 0 && field == 0 {
                FieldFollowUp::BaseThemePicker
            } else if is_action && section == 0 && field == 2 {
                FieldFollowUp::ConfirmResetColors
            } else if is_action && section == 0 && field == 3 {
                FieldFollowUp::RevertTheme
            } else {
                FieldFollowUp::Nothing
            }
        },
        _ => FieldFollowUp::Nothing,
    }
}

/// Where the keyboard goes for a follow-up: the picker or confirmation it opens, the
/// input after reverting the theme, nowhere new otherwise.
pub open spec fn follow_up_focus_spec(f: FieldFollowUp) -> Option<Focus> {
    match f {
        FieldFollowUp::PresetPicker(_) => Some(Focus::PresetPickerDialog),
        FieldFollowUp::BaseThemePicker => Some(Focus::BaseThemePickerDialog),
        FieldFollowUp::ConfirmResetColors => Some(Focus::DeleteConfirmDialog),
        FieldFollowUp::RevertTheme => Some(Focus::Input),
        FieldFollowUp::Nothing => None,
    }
}

/// Where the keyboard goes for a follow-up (see `follow_up_focus_spec`).
pub fn follow_up_focus(f: FieldFollowUp) -> (r: Option<Focus>)
    ensures
        r == follow_up_focus_spec(f),
{
    match f {
        FieldFollowUp::PresetPicker(_) => Some(Focus::PresetPickerDialog),
        FieldFollowUp::BaseThemePicker => Some(Focus::BaseThemePickerDialog),
        FieldFollowUp::ConfirmResetColors => Some(Focus::DeleteConfirmDialog),
        FieldFollowUp::RevertTheme => Some(Focus::Input),
        FieldFollowUp::Nothing => None,
    }
}

} // verus!
