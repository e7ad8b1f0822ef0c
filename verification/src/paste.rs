//! Pasted text: a pasted path is cleaned of surrounding whitespace and quotes, a file
//! reference is written as an `@` token, and the focus decides who takes the paste.

use vstd::prelude::*;
use crate::focus::Focus;
use crate::text::{chars_of, string_of, sub_chars, trim, trim_chars, is_ws, is_whitespace, push_str};

verus! {

/// Whether `t` is wrapped in a pair of double or single quotes.
pub open spec fn quoted(t: Seq<char>) -> bool {
    t.len() >= 1 && ((t[0] == '"' && t.last() == '"') || (t[0] == '\'' && t.last() == '\''))
}

/// The pasted text as a path: trimmed, and unwrapped from one pair of quotes.
pub open spec fn cleaned_path(raw: Seq<char>) -> Seq<char> {
    let t = trim(raw);
    if quoted(t) { t.subrange(1, t.len() - 1) } else { t }
}

/// The pasted text as a path. A lone quote character (after trimming) is refused by
/// `requires`: it counts as quoted but has nothing inside.
pub fn clean_pasted_path(raw: &str) -> (r: String)
    requires
        !(trim(raw@).len() == 1 && quoted(trim(raw@))),
    ensures
        r@ == cleaned_path(raw@),
{
    let v = chars_of(raw);
    let t = trim_chars(v.as_slice());
    let n = t.len();
    if n >= 1 && ((t[0] == '"' && t[n - 1] == '"') || (t[0] == '\'' && t[n - 1] == '\'')) {
        let inner = sub_chars(t.as_slice(), 1, n - 1);
        string_of(inner.as_slice())
    } else {
        string_of(t.as_slice())
    }
}

/// The `@` token for a file: the path in double quotes when it holds whitespace, so
/// that the whole path is taken.
pub open spec fn at_token(path: Seq<char>) -> Seq<char> {
    if exists|i: int| 0 <= i < path.len() && is_ws(#[trigger] path[i]) {
        "@\""@ + path + "\""@
    } else {
        "@"@ + path
    }
}

pub fn format_at_token(path: &str) -> (r: String)
    ensures
        r@ == at_token(path@),
{
    let v = chars_of(path);
    let mut i: usize = 0;
    let mut spaced = false;
    while i < v.len()
        invariant
            i <= v.len(),
            spaced == exists|k: int| 0 <= k < i && is_ws(#[trigger] v@[k]),
        decreases v.len() - i,
    {
        if is_whitespace(v[i]) {
            spaced = true;
        }
        i = i + 1;
    }
    let mut out: Vec<char> = Vec::new();
    if spaced {
        push_str(&mut out, "@\"");
        push_str(&mut out, path);
        push_str(&mut out, "\"");
    } else {
        push_str(&mut out, "@");
        push_str(&mut out, path);
    }
    string_of(out.as_slice())
}

/// Which list dialog takes a pasted file (as an import).
#[derive(Debug, Clone, Copy, PartialEq, Eq, Structural)]
pub enum FileDropTarget {
    Characters,
    Worldbooks,
    SystemPrompts,
    Personas,
    Sessions,
}

/// The list that takes a pasted path naming a file, by focus (`None`: no list does).
pub fn file_drop_target(focus: Focus) -> (r: Option<FileDropTarget>)
    ensures
        r == (match focus {
            Focus::CharacterDialog => Some(FileDropTarget::Characters),
            Focus::WorldbookDialog => Some(FileDropTarget::Worldbooks),
            Focus::SystemPromptDialog => Some(FileDropTarget::SystemPrompts),
            Focus::PersonaDialog => Some(FileDropTarget::Personas),
            Focus::Sidebar => Some(FileDropTarget::Sessions),
            _ => None,
        }),
{
    match focus {
        Focus::CharacterDialog => Some(FileDropTarget::Characters),
        Focus::WorldbookDialog => Some(FileDropTarget::Worldbooks),
        Focus::SystemPromptDialog => Some(FileDropTarget::SystemPrompts),
        Focus::PersonaDialog => Some(FileDropTarget::Personas),
        Focus::Sidebar => Some(FileDropTarget::Sessions),
        _ => None,
    }
}

/// Who takes pasted text that no list took as a file.
#[derive(Debug, Clone, Copy, PartialEq, Eq, Structural)]
pub enum TextPasteTarget {
    /// The input: a pasted file becomes an `@` token, other text is typed in.
    Input,
    /// The message editor.
    MessageEditor,
    /// The field being edited in a form dialog.
    FormField,
    /// Nobody.
    Nobody,
}

pub fn text_paste_target(focus: Focus) -> (r: TextPasteTarget)
    ensures
        r == (match focus {
            Focus::Input => TextPasteTarget::Input,
            Focus::EditDialog => TextPasteTarget::MessageEditor,
            Focus::PresetEditorDialog | Focus::PersonaEditorDialog | Focus::CharacterEditorDialog
            | Focus::SystemPromptEditorDialog | Focus::WorldbookEntryEditorDialog => TextPasteTarget::FormField,
            _ => TextPasteTarget::Nobody,
        }),
{
    match focus {
        Focus::Input => TextPasteTarget::Input,
        Focus::EditDialog => TextPasteTarget::MessageEditor,
        Focus::PresetEditorDialog | Focus::PersonaEditorDialog | Focus::CharacterEditorDialog
        | Focus::SystemPromptEditorDialog | Focus::WorldbookEntryEditorDialog => TextPasteTarget::FormField,
        _ => TextPasteTarget::Nobody,
    }
}

} // verus!
