//! The message editor: leaving it, confirming the edit, and what an edit sends.

use vstd::prelude::*;
use crate::keys::{KeyCode, KeyEvent};
use crate::input::{join_input_lines, join_lines};
use crate::text::{string_views, string_of, trim, trim_chars, chars_of};

verus! {

/// What a key in the message editor asks for.
#[derive(Debug, Clone, PartialEq, Eq)]
pub enum EditKey {
    /// Esc with nothing changed: close the editor.
    Close,
    /// Esc after a change: ask whether to keep it.
    AskConfirm,
    /// Alt-Enter: close the editor, and replace message `node` by `content` when
    /// there is a message and the text is not blank.
    Submit(Option<(usize, String)>),
    /// Any other key edits the text.
    ToEditor,
}

/// The edit that `lines` make to message `node`: the text trimmed, nothing when it
/// is blank or there is no message.
pub open spec fn submitted(lines: Seq<Seq<char>>, node: Option<usize>) -> Option<(usize, Seq<char>)> {
    let t = trim(join_lines(lines));
    match node {
        Some(id) => if t.len() == 0 { None } else { Some((id, t)) },
        None => None,
    }
}

pub open spec fn submission_view(s: Option<(usize, String)>) -> Option<(usize, Seq<char>)> {
    match s { Some((id, c)) => Some((id, c@)), None => None }
}

fn submit(lines: &Vec<String>, node: Option<usize>) -> (r: Option<(usize, String)>)
    ensures
        submission_view(r) == submitted(string_views(lines@), node),
{
    let joined = join_input_lines(lines.as_slice());
    let t = trim_chars(joined.as_slice());
    match node {
        Some(id) => if t.len() == 0 { None } else { Some((id, string_of(t.as_slice()))) },
        None => None,
    }
}

/// Handles a key in the message editor holding `lines`, opened on `original` for
/// message `node`.
pub fn handle_edit_key(key: KeyEvent, lines: &Vec<String>, original: &str, node: Option<usize>) -> (r: EditKey)
    ensures
        key.code == KeyCode::Esc ==> r == (if join_lines(string_views(lines@)) == original@ { EditKey::Close } else { EditKey::AskConfirm }),
        key.code != KeyCode::Esc && key.code == KeyCode::Enter && key.modifiers.alt ==> (r matches EditKey::Submit(s)
            && submission_view(s) == submitted(string_views(lines@), node)),
        key.code != KeyCode::Esc && !(key.code == KeyCode::Enter && key.modifiers.alt) ==> r == EditKey::ToEditor,
{
    if key.code == KeyCode::Esc {
        let joined = join_input_lines(lines.as_slice());
        let o = chars_of(original);
        if crate::text::chars_eq(joined.as_slice(), o.as_slice()) {
            return EditKey::Close;
        }
        return EditKey::AskConfirm;
    }
    if key.code == KeyCode::Enter && key.modifiers.alt {
        return EditKey::Submit(submit(lines, node));
    }
    EditKey::ToEditor
}

/// What a key in the "keep this edit?" prompt asks for.
#[derive(Debug, Clone, PartialEq, Eq)]
pub enum EditConfirm {
    Continue,
    /// Keep: as for Alt-Enter in the editor.
    Save(Option<(usize, String)>),
    /// Drop the edit and close the editor.
    Discard,
    /// Back to the editor.
    Back,
}

/// Handles a key in the prompt; `selected` is 0 for keep, 1 for drop.
pub fn handle_edit_confirm_key(key: KeyEvent, selected: &mut usize, lines: &Vec<String>, node: Option<usize>) -> (r: EditConfirm)
    requires
        *old(selected) <= 1,
    ensures
        *final(selected) <= 1,
        match key.code {
            KeyCode::Left | KeyCode::Right => r == EditConfirm::Continue && *final(selected) == 1 - *old(selected),
            KeyCode::Enter => *final(selected) == *old(selected) && if *old(selected) == 0 {
                r matches EditConfirm::Save(s) && submission_view(s) == submitted(string_views(lines@), node)
            } else {
                r == EditConfirm::Discard
            },
            KeyCode::Esc => r == EditConfirm::Back && *final(selected) == *old(selected),
            _ => r == EditConfirm::Continue && *final(selected) == *old(selected),
        },
{
    match key.code {
        KeyCode::Left | KeyCode::Right => {
            *selected = 1 - *selected;
            EditConfirm::Continue
        },
        KeyCode::Enter => {
            if *selected == 0 {
                EditConfirm::Save(submit(lines, node))
            } else {
                EditConfirm::Discard
            }
        },
        KeyCode::Esc => EditConfirm::Back,
        _ => EditConfirm::Continue,
    }
}

/// What a key in the branch list asks for.
#[derive(Debug, Clone, Copy, PartialEq, Eq, Structural)]
pub enum BranchKey {
    Continue,
    /// A movement key, for the list.
    Paged,
    /// Show the branch of sibling `i` ("Switched branch.").
    Switch(usize),
    /// Close the list.
    Close,
}

/// Handles a key in the branch list of `count` siblings with `selected` selected.
pub fn handle_branch_dialog_key(key: KeyEvent, count: usize, selected: usize) -> (r: BranchKey)
    ensures
        count == 0 ==> r == (if key.code == KeyCode::Esc { BranchKey::Close } else { BranchKey::Continue }),
        count > 0 ==> r == (match key.code {
            KeyCode::Up | KeyCode::Down | KeyCode::PageUp | KeyCode::PageDown | KeyCode::Home | KeyCode::End => BranchKey::Paged,
            KeyCode::Enter => BranchKey::Switch(selected),
            KeyCode::Esc => BranchKey::Close,
            _ => BranchKey::Continue,
        }),
{
    if count == 0 {
        return if key.code == KeyCode::Esc { BranchKey::Close } else { BranchKey::Continue };
    }
    match key.code {
        KeyCode::Up | KeyCode::Down | KeyCode::PageUp | KeyCode::PageDown | KeyCode::Home | KeyCode::End => BranchKey::Paged,
        KeyCode::Enter => BranchKey::Switch(selected),
        KeyCode::Esc => BranchKey::Close,
        _ => BranchKey::Continue,
    }
}

/// Whether a key closes the server-error dialog (Enter or Esc).
pub fn api_error_key_closes(key: KeyEvent) -> (b: bool)
    ensures
        b == (key.code == KeyCode::Enter || key.code == KeyCode::Esc),
{
    key.code == KeyCode::Enter || key.code == KeyCode::Esc
}

/// Whether a key quits from the loading dialog (Ctrl-C; nothing else does anything).
pub fn loading_key_quits(key: KeyEvent) -> (b: bool)
    ensures
        b == (key.code == KeyCode::Char('c') && key.modifiers.control),
{
    key.code == KeyCode::Char('c') && key.modifiers.control
}

} // verus!
