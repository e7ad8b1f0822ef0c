//! What a mouse event does: which pane or dialog it concerns, and the scroll and
//! selection arithmetic behind it.

use vstd::prelude::*;
use crate::focus::{Focus, is_pane, is_dialog_focus};
use crate::layout::Rect;
use crate::keys::{KeyCode, KeyEvent, KeyModifiers};

verus! {

/// The mouse events the application tells apart.
#[derive(Debug, Clone, Copy, PartialEq, Eq, Structural)]
pub enum MouseKind {
    LeftDown,
    LeftDrag,
    ScrollUp,
    ScrollDown,
    Moved,
    Other,
}

/// What a mouse event is about.
#[derive(Debug, Clone, Copy, PartialEq, Eq, Structural)]
pub enum MouseRoute {
    Ignore,
    /// A click in the open dialog.
    DialogClick,
    /// The wheel over an open dialog: it moves the dialog's selection up (`true`) or
    /// down.
    DialogScroll(bool),
    /// A click in the sidebar: focus it, then search title or session row.
    SidebarClick,
    /// A click in the chat: focus it and point at the message under the mouse.
    ChatClick,
    /// A click in the input: focus it and move the cursor there.
    InputClick,
    /// A drag in the focused input: extend the selection.
    InputDrag,
    /// A drag while the message editor is open: extend its selection.
    EditDrag,
    /// The wheel over the chat, up (`true`) or down.
    ChatScroll(bool),
    /// The wheel over the sidebar, up (`true`) or down.
    SidebarScroll(bool),
    /// The mouse moved: over the chat (`true`) the message under it is highlighted,
    /// elsewhere nothing is.
    Hover(bool),
}

/// Routes a mouse event at `(col, row)`. Nothing happens while a reply streams.
pub fn route_mouse(is_streaming: bool, focus: Focus, kind: MouseKind, sidebar: Rect, chat: Rect, input: Rect, col: u16, row: u16) -> (r: MouseRoute)
    ensures
        r == (if is_streaming {
            MouseRoute::Ignore
        } else {
            match kind {
                MouseKind::LeftDown => if !is_pane(focus) {
                    MouseRoute::DialogClick
                } else if sidebar.in_rect(col, row) {
                    MouseRoute::SidebarClick
                } else if chat.in_rect(col, row) {
                    MouseRoute::ChatClick
                } else if input.in_rect(col, row) {
                    MouseRoute::InputClick
                } else {
                    MouseRoute::Ignore
                },
                MouseKind::LeftDrag => if focus == Focus::Input && input.in_rect(col, row) {
                    MouseRoute::InputDrag
                } else if focus == Focus::EditDialog {
                    MouseRoute::EditDrag
                } else {
                    MouseRoute::Ignore
                },
                MouseKind::ScrollUp | MouseKind::ScrollDown => {
                    let up = kind == MouseKind::ScrollUp;
                    if !is_pane(focus) {
                        MouseRoute::DialogScroll(up)
                    } else if chat.in_rect(col, row) {
                        MouseRoute::ChatScroll(up)
                    } else if sidebar.in_rect(col, row) {
                        MouseRoute::SidebarScroll(up)
                    } else {
                        MouseRoute::Ignore
                    }
                },
                MouseKind::Moved => MouseRoute::Hover(chat.in_rect(col, row)),
                MouseKind::Other => MouseRoute::Ignore,
            }
        }),
{
    if is_streaming {
        return MouseRoute::Ignore;
    }
    match kind {
        MouseKind::LeftDown => {
            if is_dialog_focus(focus) {
                MouseRoute::DialogClick
            } else if sidebar.contains(col, row) {
                MouseRoute::SidebarClick
            } else if chat.contains(col, row) {
                MouseRoute::ChatClick
            } else if input.contains(col, row) {
                MouseRoute::InputClick
            } else {
                MouseRoute::Ignore
            }
        },
        MouseKind::LeftDrag => {
            if focus == Focus::Input && input.contains(col, row) {
                MouseRoute::InputDrag
            } else if focus == Focus::EditDialog {
                MouseRoute::EditDrag
            } else {
                MouseRoute::Ignore
            }
        },
        MouseKind::ScrollUp | MouseKind::ScrollDown => {
            let up = kind == MouseKind::ScrollUp;
            if is_dialog_focus(focus) {
                MouseRoute::DialogScroll(up)
            } else if chat.contains(col, row) {
                MouseRoute::ChatScroll(up)
            } else if sidebar.contains(col, row) {
                MouseRoute::SidebarScroll(up)
            } else {
                MouseRoute::Ignore
            }
        },
        MouseKind::Moved => MouseRoute::Hover(chat.contains(col, row)),
        MouseKind::Other => MouseRoute::Ignore,
    }
}

/// The chat's scroll offset after one wheel step: three rows, not above the top nor
/// past `max_scroll` going down.
pub fn chat_scroll_after(scroll: u16, up: bool, max_scroll: u16) -> (r: u16)
    ensures
        up ==> r == (if scroll >= 3 { scroll - 3 } else { 0 }),
        !up ==> r == (if scroll + 3 > u16::MAX { if u16::MAX <= max_scroll { u16::MAX as int } else { max_scroll as int } }
            else if scroll + 3 <= max_scroll { scroll + 3 } else { max_scroll as int }),
{
    if up {
        if scroll >= 3 { scroll - 3 } else { 0 }
    } else {
        let next: u16 = if scroll > u16::MAX - 3 { u16::MAX } else { scroll + 3 };
        if next <= max_scroll { next } else { max_scroll }
    }
}

/// The sidebar selection after one wheel step over it (no selection counts as the
/// first row): up one row but not above the first; down one row but not past the
/// last, and not at all when the list is empty (`None`).
pub fn sidebar_scroll_after(selected: Option<usize>, up: bool, count: usize) -> (r: Option<usize>)
    requires
        selected matches Some(s) ==> s < usize::MAX,
    ensures
        ({
            let s: int = match selected { Some(s) => s as int, None => 0 };
            if up {
                r == Some((if s > 0 { s - 1 } else { 0 }) as usize)
            } else if count == 0 {
                r is None
            } else {
                r == Some((if s + 1 < count { s + 1 } else { count - 1 }) as usize)
            }
        }),
{
    let s = match selected { Some(s) => s, None => 0 };
    if up {
        Some(if s > 0 { s - 1 } else { 0 })
    } else if count == 0 {
        None
    } else {
        Some(if s + 1 < count { s + 1 } else { count - 1 })
    }
}

/// The session row under screen row `row` of the sidebar: rows start below the top
/// border at `offset`; each session takes one row, but the selected one takes two
/// when it shows a preview.
pub open spec fn sidebar_row_hit(inner: int, offset: int, count: int, selected: Option<usize>, preview: bool) -> Option<int> {
    let two = preview && (selected matches Some(s) && offset <= s < count);
    let s: int = match selected { Some(s) => s as int, None => 0 };
    let i = if two && inner > s - offset { if inner == s - offset + 1 { s } else { offset + inner - 1 } } else { offset + inner };
    if 0 <= inner && offset <= i < count { Some(i) } else { None }
}

/// The session clicked at screen row `row` in the sidebar `area`; `preview` says
/// whether the selected session shows a preview line.
pub fn sidebar_item_at(row: u16, area: Rect, offset: usize, count: usize, selected: Option<usize>, preview: bool) -> (r: Option<usize>)
    requires
        area.y < u16::MAX,
        offset <= count,
    ensures
        ({
            let inner: int = if row >= area.y + 1 { row - area.y - 1 } else { 0 };
            match sidebar_row_hit(inner, offset as int, count as int, selected, preview) {
                Some(i) => r == Some(i as usize),
                None => r is None,
            }
        }),
{
    let inner: usize = if row >= area.y + 1 { (row - area.y - 1) as usize } else { 0 };
    let two = preview && match selected { Some(s) => offset <= s && s < count, None => false };
    let s: usize = match selected { Some(s) => s, None => 0 };
    if two && inner > s - offset {
        if inner == s - offset + 1 {
            return Some(s);
        }
        if inner - 1 < count - offset { Some(offset + (inner - 1)) } else { None }
    } else {
        if inner < count - offset { Some(offset + inner) } else { None }
    }
}


/// The dialogs whose list the mouse wheel scrolls, by sending them Up or Down.
pub open spec fn wheel_scrolls(f: Focus) -> bool {
    f == Focus::CharacterDialog || f == Focus::PersonaDialog || f == Focus::SystemPromptDialog
        || f == Focus::BranchDialog || f == Focus::WorldbookDialog || f
        == Focus::WorldbookEditorDialog || f == Focus::PresetPickerDialog || f
        == Focus::BaseThemePickerDialog
}

/// The key the wheel stands for in the dialog that has the keyboard: Up (`up`) or
/// Down without modifiers, in the dialogs of `wheel_scrolls`; none elsewhere.
pub fn scroll_dialog_key(focus: Focus, up: bool) -> (r: Option<KeyEvent>)
    ensures
        wheel_scrolls(focus) ==> (r matches Some(k) && k.code == (if up { KeyCode::Up } else {
            KeyCode::Down
        }) && !k.modifiers.shift && !k.modifiers.control && !k.modifiers.alt),
        !wheel_scrolls(focus) ==> r is None,
{
    match focus {
        Focus::CharacterDialog | Focus::PersonaDialog | Focus::SystemPromptDialog
        | Focus::BranchDialog | Focus::WorldbookDialog | Focus::WorldbookEditorDialog
        | Focus::PresetPickerDialog | Focus::BaseThemePickerDialog => {
            let code = if up { KeyCode::Up } else { KeyCode::Down };
            Some(KeyEvent::new(code, KeyModifiers::none()))
        },
        _ => None,
    }
}

/// Where a click landed in a list dialog.
#[derive(Debug, Clone, Copy, PartialEq, Eq, Structural)]
pub enum ListDialogHit {
    /// Outside the dialog.
    Outside,
    /// On the search title in the bottom border.
    SearchTitle,
    /// Inside the dialog; its rows fill this area (the dialog less its border).
    Items(Rect),
}

/// Where a click at (`col`, `row`) landed in the list dialog `dialog`. While the
/// dialog has a search, `search_title_width` is the width of its title, drawn from the
/// left edge of the bottom border.
pub fn hit_test_list_dialog(dialog: Rect, col: u16, row: u16, search_title_width: Option<u16>) -> (r: ListDialogHit)
    requires
        dialog.y + dialog.height <= u16::MAX,
        search_title_width matches Some(w) ==> dialog.x + w <= u16::MAX,
    ensures
        !dialog.in_rect(col, row) ==> r == ListDialogHit::Outside,
        dialog.in_rect(col, row) ==> r == (match search_title_width {
            Some(w) => if row + 1 == dialog.y + dialog.height && dialog.x <= col < dialog.x + w {
                ListDialogHit::SearchTitle
            } else {
                ListDialogHit::Items(Rect {
                    x: (dialog.x + 1) as u16,
                    y: (dialog.y + 1) as u16,
                    width: (if dialog.width >= 2 { dialog.width - 2 } else { 0 }) as u16,
                    height: (if dialog.height >= 2 { dialog.height - 2 } else { 0 }) as u16,
                })
            },
            None => ListDialogHit::Items(Rect {
                x: (dialog.x + 1) as u16,
                y: (dialog.y + 1) as u16,
                width: (if dialog.width >= 2 { dialog.width - 2 } else { 0 }) as u16,
                height: (if dialog.height >= 2 { dialog.height - 2 } else { 0 }) as u16,
            }),
        }),
{
    if !dialog.contains(col, row) {
        return ListDialogHit::Outside;
    }
    if let Some(w) = search_title_width {
        if row + 1 == dialog.y + dialog.height && col >= dialog.x && col < dialog.x + w {
            return ListDialogHit::SearchTitle;
        }
    }
    ListDialogHit::Items(Rect {
        x: dialog.x + 1,
        y: dialog.y + 1,
        width: if dialog.width >= 2 { dialog.width - 2 } else { 0 },
        height: if dialog.height >= 2 { dialog.height - 2 } else { 0 },
    })
}


/// Where the keyboard goes when a click lands outside the open dialog (a search in a
/// list dialog is kept): back to what the dialog was opened from. `None` for dialogs
/// that a click outside leaves open. `system_return` is where the system-prompt
/// picker was opened from.
pub open spec fn click_outside_focus_spec(focus: Focus, system_return: Focus) -> Option<Focus> {
    match focus {
        Focus::CharacterDialog | Focus::PersonaDialog | Focus::BranchDialog | Focus::WorldbookDialog
        | Focus::DeleteConfirmDialog | Focus::ConfigDialog | Focus::ThemeDialog => Some(Focus::Input),
        Focus::SystemPromptDialog => Some(system_return),
        Focus::PresetPickerDialog | Focus::PresetEditorDialog => Some(Focus::ConfigDialog),
        Focus::BaseThemePickerDialog => Some(Focus::ThemeDialog),
        Focus::PersonaEditorDialog => Some(Focus::PersonaDialog),
        Focus::CharacterEditorDialog => Some(Focus::CharacterDialog),
        Focus::SystemPromptEditorDialog => Some(Focus::SystemPromptDialog),
        Focus::WorldbookEntryEditorDialog | Focus::WorldbookEntryDeleteDialog => Some(Focus::WorldbookEditorDialog),
        Focus::WorldbookEditorDialog => Some(Focus::WorldbookDialog),
        _ => None,
    }
}

/// Where the keyboard goes after a click outside the open dialog (see
/// `click_outside_focus_spec`).
pub fn click_outside_focus(focus: Focus, system_return: Focus) -> (r: Option<Focus>)
    ensures
        r == click_outside_focus_spec(focus, system_return),
{
    match focus {
        Focus::CharacterDialog | Focus::PersonaDialog | Focus::BranchDialog | Focus::WorldbookDialog
        | Focus::DeleteConfirmDialog | Focus::ConfigDialog | Focus::ThemeDialog => Some(Focus::Input),
        Focus::SystemPromptDialog => Some(system_return),
        Focus::PresetPickerDialog | Focus::PresetEditorDialog => Some(Focus::ConfigDialog),
        Focus::BaseThemePickerDialog => Some(Focus::ThemeDialog),
        Focus::PersonaEditorDialog => Some(Focus::PersonaDialog),
        Focus::CharacterEditorDialog => Some(Focus::CharacterDialog),
        Focus::SystemPromptEditorDialog => Some(Focus::SystemPromptDialog),
        Focus::WorldbookEntryEditorDialog | Focus::WorldbookEntryDeleteDialog => Some(Focus::WorldbookEditorDialog),
        Focus::WorldbookEditorDialog => Some(Focus::WorldbookDialog),
        _ => None,
    }
}

/// The button of the delete confirmation a click inside it picks: the left one (0)
/// left of the middle, the right one (1) from the middle on.
pub fn confirm_button_at(dialog: Rect, col: u16) -> (r: usize)
    requires
        dialog.x + dialog.width / 2 <= u16::MAX,
    ensures
        r == (if col < dialog.x + dialog.width / 2 { 0usize } else { 1usize }),
{
    let mid = dialog.x + dialog.width / 2;
    if col < mid { 0 } else { 1 }
}

} // verus!
