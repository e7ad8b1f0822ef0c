//! The character, persona and worldbook pickers: what a key asks for once the list's
//! own navigation has not taken it, and the status lines that follow.

use vstd::prelude::*;
use crate::keys::{KeyCode, KeyEvent};
use crate::text::{push_str, string_of};

verus! {

/// What a key asks of a picker.
#[derive(Debug, Clone, Copy, PartialEq, Eq, Structural)]
pub enum ListDialogAction {
    /// Use the selected item (load the character, make the persona active, toggle the
    /// worldbook).
    Choose,
    /// Open the selected item in its editor.
    Edit,
    /// Make a new item and open it in its editor.
    Create,
    /// Ask whether to delete the selected item.
    ConfirmDelete,
    /// Close the picker; the keyboard goes back to the input.
    Close,
    Nothing,
}

/// The action for `key` in a picker whose list is `empty` or not; `space_chooses`
/// makes Space act as Enter (the worldbook picker).
pub open spec fn list_dialog_action_spec(key: KeyEvent, empty: bool, space_chooses: bool) -> ListDialogAction {
    if empty {
        match key.code {
            KeyCode::Char('a') => ListDialogAction::Create,
            KeyCode::Esc => ListDialogAction::Close,
            _ => ListDialogAction::Nothing,
        }
    } else {
        match key.code {
            KeyCode::Enter => ListDialogAction::Choose,
            KeyCode::Char(' ') => if space_chooses {
                ListDialogAction::Choose
            } else {
                ListDialogAction::Nothing
            },
            KeyCode::Right => ListDialogAction::Edit,
            KeyCode::Char('a') => ListDialogAction::Create,
            KeyCode::Backspace | KeyCode::Delete => ListDialogAction::ConfirmDelete,
            KeyCode::Esc => ListDialogAction::Close,
            _ => ListDialogAction::Nothing,
        }
    }
}

/// What `key` asks of a picker. On an empty list only `a` (new) and Esc do anything;
/// otherwise Enter chooses, Right edits, `a` creates, Backspace/Delete ask to delete
/// and Esc closes. Every action but `Create`, `Close` and `Nothing` applies to the
/// selected row, which exists whenever the list is not empty.
pub fn list_dialog_action(key: KeyEvent, empty: bool, space_chooses: bool) -> (r: ListDialogAction)
    ensures
        r == list_dialog_action_spec(key, empty, space_chooses),
        empty ==> (r == ListDialogAction::Create || r == ListDialogAction::Close || r
            == ListDialogAction::Nothing),
{
    if empty {
        return match key.code {
            KeyCode::Char('a') => ListDialogAction::Create,
            KeyCode::Esc => ListDialogAction::Close,
            _ => ListDialogAction::Nothing,
        };
    }
    match key.code {
        KeyCode::Enter => ListDialogAction::Choose,
        KeyCode::Char(' ') => {
            if space_chooses {
                ListDialogAction::Choose
            } else {
                ListDialogAction::Nothing
            }
        },
        KeyCode::Right => ListDialogAction::Edit,
        KeyCode::Char('a') => ListDialogAction::Create,
        KeyCode::Backspace | KeyCode::Delete => ListDialogAction::ConfirmDelete,
        KeyCode::Esc => ListDialogAction::Close,
        _ => ListDialogAction::Nothing,
    }
}

/// "Loaded character: " and the character's name.
pub fn loaded_character_message(name: &str) -> (r: String)
    ensures
        r@ == "Loaded character: "@ + name@,
{
    let mut v: Vec<char> = Vec::new();
    push_str(&mut v, "Loaded character: ");
    push_str(&mut v, name);
    string_of(v.as_slice())
}

/// "Persona set to '<name>'."
pub fn persona_set_message(name: &str) -> (r: String)
    ensures
        r@ == "Persona set to '"@ + name@ + "'."@,
{
    let mut v: Vec<char> = Vec::new();
    push_str(&mut v, "Persona set to '");
    push_str(&mut v, name);
    push_str(&mut v, "'.");
    string_of(v.as_slice())
}

/// "Failed to load persona '<slug>'."
pub fn persona_load_failed_message(slug: &str) -> (r: String)
    ensures
        r@ == "Failed to load persona '"@ + slug@ + "'."@,
{
    let mut v: Vec<char> = Vec::new();
    push_str(&mut v, "Failed to load persona '");
    push_str(&mut v, slug);
    push_str(&mut v, "'.");
    string_of(v.as_slice())
}

} // verus!
