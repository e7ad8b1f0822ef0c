//! Which part of the screen has the keyboard, and where a key goes from there.

use vstd::prelude::*;
use crate::keys::{KeyCode, KeyEvent};

verus! {

/// The part of the screen that has the keyboard: the three panes, or an open dialog.
#[derive(Debug, Clone, Copy, PartialEq, Eq, Structural)]
pub enum Focus {
    Input,
    Chat,
    Sidebar,
    PasskeyDialog,
    SetPasskeyDialog,
    PresetPickerDialog,
    AuthDialog,
    AuthTypePicker,
    PresetEditorDialog,
    ConfigDialog,
    ThemeDialog,
    BaseThemePickerDialog,
    PersonaDialog,
    PersonaEditorDialog,
    CharacterDialog,
    CharacterEditorDialog,
    WorldbookDialog,
    WorldbookEditorDialog,
    WorldbookEntryEditorDialog,
    WorldbookEntryDeleteDialog,
    SystemPromptDialog,
    SystemPromptEditorDialog,
    EditDialog,
    EditConfirmDialog,
    BranchDialog,
    DeleteConfirmDialog,
    ApiErrorDialog,
    FilePickerDialog,
    InjectionWarningDialog,
    LoadingDialog,
}

pub open spec fn is_pane(f: Focus) -> bool {
    f == Focus::Input || f == Focus::Chat || f == Focus::Sidebar
}

/// Whether a dialog has the keyboard (anything but the three panes).
pub fn is_dialog_focus(f: Focus) -> (b: bool)
    ensures
        b == !is_pane(f),
{
    match f {
        Focus::Input | Focus::Chat | Focus::Sidebar => false,
        _ => true,
    }
}

/// Where a key goes.
#[derive(Debug, Clone, Copy, PartialEq, Eq, Structural)]
pub enum KeyRoute {
    /// To the dialog that has the keyboard.
    Dialog,
    /// To the handling of keys while a reply streams.
    Streaming,
    /// Ctrl-C over a selection in the input: copy it, and quit only when the copy
    /// does not take the key.
    CopyOrQuit,
    Quit,
    /// Alt-Left / Alt-Right: show the previous (`false`) or next (`true`) sibling
    /// branch.
    SwitchSibling(bool),
    /// Tab: the keyboard moves to this pane.
    CycleFocus(Focus),
    /// Esc: back to the input.
    BackToInput,
    /// To the input, the chat or the sidebar pane.
    Pane(Focus),
}

/// The pane after `f` when Tab is pressed: input, chat, sidebar, and round again.
pub open spec fn tab_next(f: Focus) -> Focus {
    if f == Focus::Input {
        Focus::Chat
    } else if f == Focus::Chat {
        Focus::Sidebar
    } else {
        Focus::Input
    }
}

/// Routes a key. An open dialog takes every key; while a reply streams the keys go
/// to the streaming handler; otherwise Ctrl-C and Ctrl-Q quit (Ctrl-C copies first
/// when the input has a selection), Alt-arrows switch branches, Tab cycles the panes,
/// Esc returns to the input (except in the sidebar while its search is active), and
/// the rest goes to the pane.
pub fn route_key(focus: Focus, is_streaming: bool, key: KeyEvent, input_has_selection: bool, sidebar_search_active: bool) -> (r: KeyRoute)
    ensures
        !is_pane(focus) ==> r == KeyRoute::Dialog,
        is_pane(focus) && is_streaming ==> r == KeyRoute::Streaming,
        is_pane(focus) && !is_streaming ==> r == (
            if key.code == KeyCode::Char('c') && key.modifiers.control {
                if focus == Focus::Input && input_has_selection { KeyRoute::CopyOrQuit } else { KeyRoute::Quit }
            } else if key.code == KeyCode::Char('q') && key.modifiers.control {
                KeyRoute::Quit
            } else if key.code == KeyCode::Left && key.modifiers.alt {
                KeyRoute::SwitchSibling(false)
            } else if key.code == KeyCode::Right && key.modifiers.alt {
                KeyRoute::SwitchSibling(true)
            } else if key.code == KeyCode::Tab {
                KeyRoute::CycleFocus(tab_next(focus))
            } else if key.code == KeyCode::Esc && !(focus == Focus::Sidebar && sidebar_search_active) {
                KeyRoute::BackToInput
            } else {
                KeyRoute::Pane(focus)
            }
        ),
{
    if is_dialog_focus(focus) {
        return KeyRoute::Dialog;
    }
    if is_streaming {
        return KeyRoute::Streaming;
    }
    if key.code == KeyCode::Char('c') && key.modifiers.control {
        if focus == Focus::Input && input_has_selection {
            return KeyRoute::CopyOrQuit;
        }
        return KeyRoute::Quit;
    }
    if key.code == KeyCode::Char('q') && key.modifiers.control {
        return KeyRoute::Quit;
    }
    if key.code == KeyCode::Left && key.modifiers.alt {
        return KeyRoute::SwitchSibling(false);
    }
    if key.code == KeyCode::Right && key.modifiers.alt {
        return KeyRoute::SwitchSibling(true);
    }
    if key.code == KeyCode::Tab {
        let next = match focus {
            Focus::Input => Focus::Chat,
            Focus::Chat => Focus::Sidebar,
            _ => Focus::Input,
        };
        return KeyRoute::CycleFocus(next);
    }
    if key.code == KeyCode::Esc {
        if focus == Focus::Sidebar && sidebar_search_active {
            return KeyRoute::Pane(focus);
        }
        return KeyRoute::BackToInput;
    }
    KeyRoute::Pane(focus)
}

/// Where the keyboard goes once the passkey is accepted: the loading dialog while the
/// model name is unknown, the error dialog when the server is down, else the input.
pub fn post_passkey_focus(model_known: bool, api_available: bool) -> (f: Focus)
    ensures
        f == (if !model_known { Focus::LoadingDialog } else if !api_available { Focus::ApiErrorDialog } else { Focus::Input }),
{
    if !model_known {
        Focus::LoadingDialog
    } else if !api_available {
        Focus::ApiErrorDialog
    } else {
        Focus::Input
    }
}

/// The focus after the model name arrived: the loading dialog gives way to the input.
pub fn focus_after_model_fetched(f: Focus) -> (r: Focus)
    ensures
        r == (if f == Focus::LoadingDialog { Focus::Input } else { f }),
{
    if f == Focus::LoadingDialog { Focus::Input } else { f }
}

/// The focus after the model name could not be fetched: the error dialog, unless a
/// passkey dialog is open.
pub fn focus_after_model_failed(f: Focus) -> (r: Focus)
    ensures
        r == (if f == Focus::PasskeyDialog || f == Focus::SetPasskeyDialog { f } else { Focus::ApiErrorDialog }),
{
    match f {
        Focus::PasskeyDialog | Focus::SetPasskeyDialog => f,
        _ => Focus::ApiErrorDialog,
    }
}

/// Tab three times comes back to the same pane.
pub proof fn law_tab_cycles_in_three(f: Focus)
    requires
        is_pane(f),
    ensures
        tab_next(tab_next(tab_next(f))) == f,
        tab_next(f) != f,
{
}


/// What Tab does besides moving the keyboard (see `tab_next`).
#[derive(Debug, Clone, Copy, PartialEq, Eq, Structural)]
pub struct TabMove {
    pub focus: Focus,
    /// Where the chat's navigation cursor stands afterwards.
    pub nav_cursor: Option<usize>,
    /// Whether following the streamed reply stops.
    pub stop_auto_scroll: bool,
}

/// Tab from `focus`, the branch shown ending at `last_message` (if it has any):
/// entering the chat puts the cursor on the branch's last message and stops following
/// the reply; every other move drops the cursor.
pub fn tab_move(focus: Focus, last_message: Option<usize>) -> (r: TabMove)
    ensures
        r.focus == tab_next(focus),
        focus == Focus::Input ==> r.nav_cursor == last_message && r.stop_auto_scroll,
        focus != Focus::Input ==> r.nav_cursor is None && !r.stop_auto_scroll,
{
    match focus {
        Focus::Input => TabMove { focus: Focus::Chat, nav_cursor: last_message, stop_auto_scroll: true },
        Focus::Chat => TabMove { focus: Focus::Sidebar, nav_cursor: None, stop_auto_scroll: false },
        _ => TabMove { focus: Focus::Input, nav_cursor: None, stop_auto_scroll: false },
    }
}

} // verus!
