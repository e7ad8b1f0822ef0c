//! Moving through the messages of the current branch: the cursor over the user's
//! messages from the input, over all messages in the chat pane, switching between
//! sibling branches, and which messages may be edited.

use vstd::prelude::*;
use crate::text::first_index;
use crate::keys::{KeyCode, KeyEvent};
use crate::status::{set_status, status_text_spec, StatusLevel, StatusMessage};

verus! {

/// Index of the first `x` in `ids`, if any.
pub(crate) fn position(ids: &[usize], x: usize) -> (r: Option<usize>)
    ensures
        match r {
            Some(i) => i < ids@.len() && ids@[i as int] == x && forall|k: int| 0 <= k < i ==> ids@[k] != x,
            None => forall|k: int| 0 <= k < ids@.len() ==> ids@[k] != x,
        },
{
    let mut i: usize = 0;
    while i < ids.len()
        invariant
            i <= ids@.len(),
            forall|k: int| 0 <= k < i ==> ids@[k] != x,
        decreases ids.len() - i,
    {
        if ids[i] == x {
            return Some(i);
        }
        i = i + 1;
    }
    None
}

/// The first position of `x` in `s`, or `None`.
pub open spec fn pos_of(s: Seq<usize>, x: usize) -> Option<int> {
    if s.contains(x) { Some(first_index(s, x)) } else { None }
}

/// The message next to `c` in `ids`: the one before it (`up`) or after it; `None`
/// when `c` is not there or has no such neighbour.
pub open spec fn step_target(ids: Seq<usize>, c: usize, up: bool) -> Option<usize> {
    match pos_of(ids, c) {
        Some(p) => if up {
            if p > 0 { Some(ids[p - 1]) } else { None }
        } else {
            if p + 1 < ids.len() { Some(ids[p + 1]) } else { None }
        },
        None => None,
    }
}

proof fn lemma_position_is_pos_of(s: Seq<usize>, x: usize, r: Option<usize>)
    requires
        match r {
            Some(i) => i < s.len() && s[i as int] == x && forall|k: int| 0 <= k < i ==> s[k] != x,
            None => forall|k: int| 0 <= k < s.len() ==> s[k] != x,
        },
    ensures
        match r {
            Some(i) => pos_of(s, x) == Some(i as int),
            None => pos_of(s, x) is None,
        },
{
    crate::text::lemma_first_index(s, x);
    if let Some(i) = r {
        assert(s.contains(x));
    }
}

/// Up from the input over the user's messages `user_ids`: with no cursor the cursor
/// lands on the last one (and the chat stops following the end); otherwise it moves
/// to the previous one, staying put on the first. Returns the new cursor and whether
/// auto-scroll is switched off.
pub fn navigate_up(user_ids: &[usize], cursor: Option<usize>) -> (r: (Option<usize>, bool))
    ensures
        user_ids@.len() == 0 ==> r == (cursor, false),
        user_ids@.len() > 0 && cursor is None ==> r == (Some(user_ids@.last()), true),
        user_ids@.len() > 0 ==> (cursor matches Some(c) ==> r.1 == false && r.0 == (match step_target(user_ids@, c, true) {
            Some(t) => Some(t),
            None => cursor,
        })),
{
    if user_ids.len() == 0 {
        return (cursor, false);
    }
    match cursor {
        None => (Some(user_ids[user_ids.len() - 1]), true),
        Some(c) => {
            let p = position(user_ids, c);
            proof { lemma_position_is_pos_of(user_ids@, c, p); }
            match p {
                Some(i) => if i > 0 { (Some(user_ids[i - 1]), false) } else { (cursor, false) },
                None => (cursor, false),
            }
        },
    }
}

/// Down from the input: the cursor moves to the next user message; past the last (or
/// when it is not found) it leaves the messages and the chat follows the end again.
/// Returns the new cursor and whether auto-scroll is switched on.
pub fn navigate_down(user_ids: &[usize], cursor: Option<usize>) -> (r: (Option<usize>, bool))
    ensures
        cursor is None ==> r == (cursor, false),
        cursor matches Some(c) ==> r == (match step_target(user_ids@, c, false) {
            Some(t) => (Some(t), false),
            None => (None::<usize>, true),
        }),
{
    match cursor {
        None => (cursor, false),
        Some(c) => {
            let p = position(user_ids, c);
            proof { lemma_position_is_pos_of(user_ids@, c, p); }
            match p {
                Some(i) => if i < user_ids.len() - 1 { (Some(user_ids[i + 1]), false) } else { (None, true) },
                None => (None, true),
            }
        },
    }
}

/// Up or down in the chat pane over all messages `ids` of the branch: the cursor
/// moves to the neighbour, and stays when there is none (or no cursor).
pub fn chat_cursor_step(ids: &[usize], cursor: Option<usize>, up: bool) -> (r: Option<usize>)
    ensures
        r == (match cursor {
            None => cursor,
            Some(c) => match step_target(ids@, c, up) {
                Some(t) => Some(t),
                None => cursor,
            },
        }),
{
    match cursor {
        None => cursor,
        Some(c) => {
            let p = position(ids, c);
            proof { lemma_position_is_pos_of(ids@, c, p); }
            match p {
                Some(i) => if up {
                    if i > 0 { Some(ids[i - 1]) } else { cursor }
                } else {
                    if i < ids.len() - 1 { Some(ids[i + 1]) } else { cursor }
                },
                None => cursor,
            }
        },
    }
}

/// The sibling shown after moving `offset` places from `current` among `siblings`,
/// going round at either end; `None` when there is nothing to switch to (a single
/// sibling, or `current` is not among them).
pub fn sibling_after_switch(siblings: &[usize], current: usize, forward: bool) -> (r: Option<usize>)
    ensures
        siblings@.len() <= 1 ==> r is None,
        siblings@.len() > 1 ==> r == (match pos_of(siblings@, current) {
            Some(p) => Some(siblings@[if forward {
                if p + 1 < siblings@.len() { p + 1 } else { 0 }
            } else {
                if p > 0 { p - 1 } else { siblings@.len() - 1 }
            }]),
            None => None,
        }),
{
    if siblings.len() <= 1 {
        return None;
    }
    let p = position(siblings, current);
    proof { lemma_position_is_pos_of(siblings@, current, p); }
    match p {
        None => None,
        Some(i) => {
            let j = if forward {
                if i + 1 < siblings.len() { i + 1 } else { 0 }
            } else {
                if i > 0 { i - 1 } else { siblings.len() - 1 }
            };
            Some(siblings[j])
        },
    }
}

/// Whether the message `node` of the branch `ids` may be edited: not when a summary
/// comes after it in the branch (unless it is a summary itself). `is_summary` tells,
/// for each message of the branch, whether it is a summary.
pub fn edit_allowed(ids: &[usize], is_summary: &[bool], node: usize, node_is_summary: bool) -> (b: bool)
    requires
        ids@.len() == is_summary@.len(),
    ensures
        b == (node_is_summary || match pos_of(ids@, node) {
            Some(p) => forall|k: int| p < k < ids@.len() ==> !#[trigger] is_summary@[k],
            None => true,
        }),
{
    if node_is_summary {
        return true;
    }
    let p = position(ids, node);
    proof { lemma_position_is_pos_of(ids@, node, p); }
    match p {
        None => true,
        Some(i) => {
            let mut k = i;
            while k < ids.len() - 1
                invariant
                    i <= k < ids@.len(),
                    ids@.len() == is_summary@.len(),
                    !node_is_summary,
                    pos_of(ids@, node) == Some(i as int),
                    forall|m: int| i < m <= k ==> !#[trigger] is_summary@[m],
                decreases ids.len() - k,
            {
                if is_summary[k + 1] {
                    assert(is_summary@[k + 1]);
                    return false;
                }
                k = k + 1;
            }
            true
        },
    }
}

/// The sessions the sidebar lists while a search filters it: the "new chat" entry
/// always, the others when they match.
pub fn sidebar_visible(is_new_chat: &[bool], matches: &[bool], filtering: bool) -> (r: Vec<usize>)
    requires
        is_new_chat@.len() == matches@.len(),
    ensures
        r@ == Seq::new(is_new_chat@.len(), |i: int| i as usize).filter(
            |i: usize| !filtering || is_new_chat@[i as int] || matches@[i as int]),
{
    let ghost all = Seq::new(is_new_chat@.len(), |i: int| i as usize);
    let ghost keep = |i: usize| !filtering || is_new_chat@[i as int] || matches@[i as int];
    let mut r: Vec<usize> = Vec::new();
    let mut i: usize = 0;
    while i < is_new_chat.len()
        invariant
            i <= is_new_chat@.len(),
            is_new_chat@.len() == matches@.len(),
            all == Seq::new(is_new_chat@.len(), |i: int| i as usize),
            keep == (|i: usize| !filtering || is_new_chat@[i as int] || matches@[i as int]),
            r@ == all.take(i as int).filter(keep),
        decreases is_new_chat.len() - i,
    {
        proof {
            assert(all.take(i + 1) =~= all.take(i as int).push(i));
            all.take(i as int).lemma_filter_push(i, keep);
        }
        if !filtering || is_new_chat[i] || matches[i] {
            r.push(i);
        }
        i = i + 1;
    }
    assert(all.take(i as int) =~= all);
    r
}

/// Up or Down over the listed sessions `visible`: from the selected one (the first
/// when it is not listed), going round at either end. Returns the session to select.
pub fn sidebar_step(visible: &[usize], selected: usize, up: bool) -> (r: usize)
    requires
        visible@.len() > 0,
    ensures
        ({
            let p: int = match pos_of(visible@, selected) { Some(p) => p, None => 0 };
            let n = visible@.len() as int;
            r == visible@[if up { if p == 0 { n - 1 } else { p - 1 } } else { (p + 1) % n }]
        }),
{
    let p = position(visible, selected);
    proof { lemma_position_is_pos_of(visible@, selected, p); }
    let cur = match p { Some(i) => i, None => 0 };
    let n = visible.len();
    let next = if up {
        if cur == 0 { n - 1 } else { cur - 1 }
    } else {
        if cur + 1 < n { cur + 1 } else { 0 }
    };
    proof {
        if !up && cur + 1 >= n {
            assert((cur + 1) % (n as int) == 0) by (nonlinear_arith)
                requires cur + 1 == n, n > 0;
        }
        if !up && cur + 1 < n {
            assert((cur + 1) % (n as int) == cur + 1) by (nonlinear_arith)
                requires 0 <= cur + 1 < n;
        }
    }
    visible[next]
}

/// Whether the input holds only blank lines.
pub fn input_is_blank(lines: &[String]) -> (b: bool)
    ensures
        b == forall|i: int| 0 <= i < lines@.len() ==> #[trigger] crate::text::trim(lines@[i]@).len() == 0,
{
    let mut i: usize = 0;
    while i < lines.len()
        invariant
            i <= lines@.len(),
            forall|k: int| 0 <= k < i ==> #[trigger] crate::text::trim(lines@[k]@).len() == 0,
        decreases lines.len() - i,
    {
        let v = crate::text::chars_of(lines[i].as_str());
        if !crate::text::is_blank(v.as_slice()) {
            return false;
        }
        i = i + 1;
    }
    true
}

/// In a branch (no message twice), moving to a neighbour and back returns to the
/// start: Down undoes Up, and Up undoes Down.
pub proof fn law_step_back_returns(ids: Seq<usize>, c: usize, up: bool)
    requires
        ids.no_duplicates(),
        step_target(ids, c, up) is Some,
    ensures
        step_target(ids, step_target(ids, c, up)->0, !up) == Some(c),
{
    crate::text::lemma_first_index(ids, c);
    let p = first_index(ids, c);
    let q = if up { p - 1 } else { p + 1 };
    let t = ids[q];
    assert(ids.contains(t));
    crate::text::lemma_first_index(ids, t);
    let f = first_index(ids, t);
    if f != q {
        assert(ids[f] == ids[q]);
    }
    assert(f == q);
}

/// What a key in the chat pane asks for.
#[derive(Debug, Clone, Copy, PartialEq, Eq, Structural)]
pub enum ChatKey {
    /// The branch is empty, or the key does nothing here.
    Nothing,
    /// The cursor moved to this message (or stayed).
    Cursor(Option<usize>),
    /// Show the previous (`false`) or next sibling of the message under the cursor.
    SwitchSibling(bool),
    /// Open the editor on message `id`.
    Edit(usize),
    /// Editing was refused (the status line says why).
    Refused,
}

pub open spec fn edit_refusal_text() -> Seq<char> {
    "Cannot edit before a summary. Branch from this message instead."@
}

/// Handles a key in the chat pane over the messages `ids` of the branch, with the
/// cursor on `cursor`. For Enter: `path_ids` and `is_summary` describe the whole
/// branch path, and `cursor_is_summary` whether the message under the cursor (when
/// it exists) is a summary.
pub fn route_chat_key(key: KeyEvent, ids: &[usize], cursor: Option<usize>, cursor_exists: bool, path_ids: &[usize], is_summary: &[bool], cursor_is_summary: bool, status: &mut Option<StatusMessage>) -> (r: ChatKey)
    requires
        path_ids@.len() == is_summary@.len(),
    ensures
        ids@.len() == 0 ==> r == ChatKey::Nothing && *final(status) == *old(status),
        ids@.len() > 0 ==> match key.code {
            KeyCode::Up => r == ChatKey::Cursor(match cursor {
                None => cursor,
                Some(c) => match step_target(ids@, c, true) { Some(t) => Some(t), None => cursor },
            }) && *final(status) == *old(status),
            KeyCode::Down => r == ChatKey::Cursor(match cursor {
                None => cursor,
                Some(c) => match step_target(ids@, c, false) { Some(t) => Some(t), None => cursor },
            }) && *final(status) == *old(status),
            KeyCode::Left => r == ChatKey::SwitchSibling(false) && *final(status) == *old(status),
            KeyCode::Right => r == ChatKey::SwitchSibling(true) && *final(status) == *old(status),
            KeyCode::Enter => match cursor {
                Some(id) if cursor_exists => {
                    let allowed = cursor_is_summary || match pos_of(path_ids@, id) {
                        Some(p) => forall|k: int| p < k < path_ids@.len() ==> !#[trigger] is_summary@[k],
                        None => true,
                    };
                    if allowed {
                        r == ChatKey::Edit(id) && *final(status) == *old(status)
                    } else {
                        r == ChatKey::Refused && (*final(status) matches Some(m)
                            && m.text@ == status_text_spec(edit_refusal_text()) && m.level == StatusLevel::Warning)
                    }
                },
                _ => r == ChatKey::Nothing && *final(status) == *old(status),
            },
            _ => r == ChatKey::Nothing && *final(status) == *old(status),
        },
{
    if ids.len() == 0 {
        return ChatKey::Nothing;
    }
    match key.code {
        KeyCode::Up => ChatKey::Cursor(chat_cursor_step(ids, cursor, true)),
        KeyCode::Down => ChatKey::Cursor(chat_cursor_step(ids, cursor, false)),
        KeyCode::Left => ChatKey::SwitchSibling(false),
        KeyCode::Right => ChatKey::SwitchSibling(true),
        KeyCode::Enter => {
            match cursor {
                Some(id) => {
                    if !cursor_exists {
                        return ChatKey::Nothing;
                    }
                    if edit_allowed(path_ids, is_summary, id, cursor_is_summary) {
                        ChatKey::Edit(id)
                    } else {
                        set_status(status, String::from_str("Cannot edit before a summary. Branch from this message instead."), StatusLevel::Warning);
                        ChatKey::Refused
                    }
                },
                None => ChatKey::Nothing,
            }
        },
        _ => ChatKey::Nothing,
    }
}


/// What a key in the sidebar asks for.
#[derive(Debug, Clone, Copy, PartialEq, Eq, Structural)]
pub enum SidebarKey {
    Nothing,
    /// Ctrl-F: start a search, remembering the selected row to go back to.
    EnterSearch,
    /// Esc while searching: drop the search and go back to the remembered row.
    CancelSearch,
    /// Enter while searching: keep the filter and the selection.
    CommitSearch,
    /// Backspace while searching: drop the last character of the query.
    SearchPop,
    /// A character typed while searching.
    SearchPush(char),
    /// Up/Down: select and load this session.
    Select(usize),
    /// Backspace/Delete on a saved session: ask whether to delete it.
    ConfirmDelete,
}

/// The sidebar's handling of `key` over `count` sessions, of which `visible` are
/// listed; `selected` is the selected row and `selected_is_new_chat` tells whether it
/// is the "new chat" entry.
pub open spec fn sidebar_key_spec(
    key: KeyEvent,
    count: nat,
    search_active: bool,
    visible: Seq<usize>,
    selected: usize,
    selected_is_new_chat: bool,
) -> SidebarKey {
    let ctrl = key.modifiers.control;
    if count == 0 {
        SidebarKey::Nothing
    } else if key.code == KeyCode::Char('f') && ctrl && !search_active {
        SidebarKey::EnterSearch
    } else if search_active && key.code == KeyCode::Esc {
        SidebarKey::CancelSearch
    } else if search_active && key.code == KeyCode::Enter {
        SidebarKey::CommitSearch
    } else if search_active && key.code == KeyCode::Backspace {
        SidebarKey::SearchPop
    } else if search_active && key.code is Char && !ctrl {
        SidebarKey::SearchPush(key.code->Char_0)
    } else if visible.len() == 0 {
        SidebarKey::Nothing
    } else if key.code == KeyCode::Up || key.code == KeyCode::Down {
        let p: int = match pos_of(visible, selected) { Some(p) => p, None => 0 };
        let n = visible.len() as int;
        SidebarKey::Select(
            visible[if key.code == KeyCode::Up { if p == 0 { n - 1 } else { p - 1 } } else { (p + 1) % n }],
        )
    } else if (key.code == KeyCode::Backspace || key.code == KeyCode::Delete) && !selected_is_new_chat {
        SidebarKey::ConfirmDelete
    } else {
        SidebarKey::Nothing
    }
}

/// Handles a key in the sidebar (see `sidebar_key_spec`). While a search is active it
/// takes Esc, Enter, Backspace and plain characters; Up and Down go round the listed
/// sessions; the "new chat" entry cannot be deleted.
pub fn route_sidebar_key(
    key: KeyEvent,
    count: usize,
    search_active: bool,
    visible: &[usize],
    selected: usize,
    selected_is_new_chat: bool,
) -> (r: SidebarKey)
    ensures
        r == sidebar_key_spec(key, count as nat, search_active, visible@, selected, selected_is_new_chat),
{
    let ctrl = key.modifiers.control;
    if count == 0 {
        return SidebarKey::Nothing;
    }
    if key.code == KeyCode::Char('f') && ctrl && !search_active {
        return SidebarKey::EnterSearch;
    }
    if search_active {
        match key.code {
            KeyCode::Esc => return SidebarKey::CancelSearch,
            KeyCode::Enter => return SidebarKey::CommitSearch,
            KeyCode::Backspace => return SidebarKey::SearchPop,
            KeyCode::Char(c) => {
                if !ctrl {
                    return SidebarKey::SearchPush(c);
                }
            },
            _ => {},
        }
    }
    if visible.len() == 0 {
        return SidebarKey::Nothing;
    }
    match key.code {
        KeyCode::Up => SidebarKey::Select(sidebar_step(visible, selected, true)),
        KeyCode::Down => SidebarKey::Select(sidebar_step(visible, selected, false)),
        KeyCode::Backspace | KeyCode::Delete => {
            if selected_is_new_chat {
                SidebarKey::Nothing
            } else {
                SidebarKey::ConfirmDelete
            }
        },
        _ => SidebarKey::Nothing,
    }
}

/// The row to go back to when a search is cancelled: the remembered one, kept within
/// the `count` sessions.
pub fn restored_selection(remembered: usize, count: usize) -> (r: usize)
    requires
        count > 0,
    ensures
        r == (if remembered < count - 1 { remembered as int } else { count - 1 }),
{
    if remembered < count - 1 {
        remembered
    } else {
        count - 1
    }
}

} // verus!
