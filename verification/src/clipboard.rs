//! Copy, cut and paste in the text inputs: which key asks for what, and what a paste
//! from the system clipboard does.

use vstd::prelude::*;
use crate::keys::{KeyCode, KeyEvent};

verus! {

/// What a key asks of the clipboard.
#[derive(Debug, Clone, Copy, PartialEq, Eq, Structural)]
pub enum ClipboardAction {
    /// Ctrl-C over a selection.
    Copy,
    /// Ctrl-X over a selection.
    Cut,
    /// Ctrl-V.
    Paste,
    /// Not a clipboard key here: the input handles it as usual.
    NotMine,
}

/// The clipboard's reading of `key`; copying and cutting need a selection.
pub fn clipboard_action(key: KeyEvent, has_selection: bool) -> (r: ClipboardAction)
    ensures
        r == (if !key.modifiers.control {
            ClipboardAction::NotMine
        } else if key.code == KeyCode::Char('c') {
            if has_selection { ClipboardAction::Copy } else { ClipboardAction::NotMine }
        } else if key.code == KeyCode::Char('x') {
            if has_selection { ClipboardAction::Cut } else { ClipboardAction::NotMine }
        } else if key.code == KeyCode::Char('v') {
            ClipboardAction::Paste
        } else {
            ClipboardAction::NotMine
        }),
{
    if !key.modifiers.control {
        return ClipboardAction::NotMine;
    }
    match key.code {
        KeyCode::Char('c') => if has_selection { ClipboardAction::Copy } else { ClipboardAction::NotMine },
        KeyCode::Char('x') => if has_selection { ClipboardAction::Cut } else { ClipboardAction::NotMine },
        KeyCode::Char('v') => ClipboardAction::Paste,
        _ => ClipboardAction::NotMine,
    }
}

/// What reading the clipboard for a paste gave: the text to insert (none when the
/// clipboard is empty) and the warning to show when it could not be read.
pub fn paste_result(read: Result<String, String>) -> (r: (Option<String>, Option<String>))
    ensures
        match read {
            Ok(t) => r.1 is None && (if t@.len() == 0 {
                r.0 is None
            } else {
                r.0 matches Some(s) && s@ == t@
            }),
            Err(m) => r.0 is None && (r.1 matches Some(w) && w@ == m@),
        },
{
    match read {
        Ok(t) => {
            if crate::text::char_count(t.as_str()) == 0 {
                (None, None)
            } else {
                (Some(t), None)
            }
        },
        Err(m) => (None, Some(m)),
    }
}

} // verus!
