//! Worldbooks in a chat: each is off, on for this session, or on everywhere (in the
//! config); the picker cycles a worldbook through the three. Also the rules of the
//! worldbook editor: saving, renaming, deleting entries.

use vstd::prelude::*;
use crate::text::{
    string_views, char_count, pop_char, push_char, chars_of, string_of, trim_chars, trim, push_str,
    push_decimal, push_decimal_i64, decimal, decimal_int, parse_i64_chars, parse_usize_chars,
    parse_signed, parse_unsigned, is_ws, skip_ws_from, back_ws_from,
};
use crate::config_form::{lemma_no_ws_trim, lemma_signed_round_trip, lemma_unsigned_round_trip};
use crate::status::{set_status, status_text_spec, StatusLevel, StatusMessage};
use crate::keys::{KeyCode, KeyEvent};
use crate::selection::MAX_NAME_LENGTH;

verus! {

/// Where a worldbook is switched on.
#[derive(Debug, Clone, Copy, PartialEq, Eq, Structural)]
pub enum WorldbookState {
    Off,
    Session,
    Global,
}

/// The state of worldbook `name`: on everywhere when the config lists it, else on
/// for the session when the session lists it, else off.
pub open spec fn state_of(config: Seq<Seq<char>>, session: Seq<Seq<char>>, name: Seq<char>) -> WorldbookState {
    if config.contains(name) {
        WorldbookState::Global
    } else if session.contains(name) {
        WorldbookState::Session
    } else {
        WorldbookState::Off
    }
}

/// The state that choosing a worldbook in the picker moves to.
pub open spec fn next_state(s: WorldbookState) -> WorldbookState {
    match s {
        WorldbookState::Off => WorldbookState::Session,
        WorldbookState::Session => WorldbookState::Global,
        WorldbookState::Global => WorldbookState::Off,
    }
}

/// Whether `list` holds `name`.
pub fn lists_name(list: &Vec<String>, name: &str) -> (b: bool)
    ensures
        b == string_views(list@).contains(name@),
{
    let target = String::from_str(name);
    let mut i: usize = 0;
    while i < list.len()
        invariant
            i <= list@.len(),
            target@ == name@,
            forall|k: int| 0 <= k < i ==> list@[k]@ != name@,
        decreases list.len() - i,
    {
        if list[i] == target {
            assert(string_views(list@)[i as int] == name@);
            return true;
        }
        i = i + 1;
    }
    assert forall|k: int| 0 <= k < string_views(list@).len() implies string_views(list@)[k] != name@ by {
        assert(string_views(list@)[k] == list@[k]@);
    }
    false
}

pub fn worldbook_state(config: &Vec<String>, session: &Vec<String>, name: &str) -> (s: WorldbookState)
    ensures
        s == state_of(string_views(config@), string_views(session@), name@),
{
    if lists_name(config, name) {
        WorldbookState::Global
    } else if lists_name(session, name) {
        WorldbookState::Session
    } else {
        WorldbookState::Off
    }
}

/// Holds of every name but `name`.
pub open spec fn other_than(name: Seq<char>) -> spec_fn(Seq<char>) -> bool {
    |s: Seq<char>| s != name
}

/// `list` without any entry equal to `name` (as `retain` leaves it).
pub open spec fn without(list: Seq<Seq<char>>, name: Seq<char>) -> Seq<Seq<char>> {
    list.filter(other_than(name))
}

fn remove_name(list: &mut Vec<String>, name: &str)
    ensures
        string_views(final(list)@) == without(string_views(old(list)@), name@),
{
    let target = String::from_str(name);
    let ghost src = string_views(list@);
    let ghost keep = other_than(name@);
    let mut out: Vec<String> = Vec::new();
    let mut i: usize = 0;
    while i < list.len()
        invariant
            i <= list@.len(),
            target@ == name@,
            src == string_views(list@),
            keep == other_than(name@),
            string_views(out@) == src.take(i as int).filter(keep),
        decreases list.len() - i,
    {
        proof {
            assert(src.take(i + 1) =~= src.take(i as int).push(src[i as int]));
            src.take(i as int).lemma_filter_push(src[i as int], keep);
        }
        if list[i] != target {
            let ghost before = out@;
            out.push(list[i].clone());
            assert(string_views(out@) =~= string_views(before).push(src[i as int]));
        }
        i = i + 1;
    }
    assert(src.take(i as int) =~= src);
    *list = out;
}

fn push_name(list: &mut Vec<String>, name: &str)
    ensures
        string_views(final(list)@) == string_views(old(list)@).push(name@),
{
    let ghost before = list@;
    list.push(String::from_str(name));
    assert(string_views(list@) =~= string_views(before).push(name@));
}

/// Chooses worldbook `name` in the picker: off becomes on for the session, on for
/// the session becomes on everywhere (moving from the session's list to the
/// config's), and on everywhere becomes off. Returns whether the config changed (and
/// must be saved).
pub fn toggle_worldbook(config: &mut Vec<String>, session: &mut Vec<String>, name: &str) -> (config_changed: bool)
    ensures
        ({
            let c0 = string_views(old(config)@);
            let s0 = string_views(old(session)@);
            let c1 = string_views(final(config)@);
            let s1 = string_views(final(session)@);
            match state_of(c0, s0, name@) {
                WorldbookState::Off => !config_changed && c1 == c0 && s1 == s0.push(name@),
                WorldbookState::Session => config_changed && c1 == c0.push(name@) && s1 == without(s0, name@),
                WorldbookState::Global => config_changed && c1 == without(c0, name@) && s1 == s0,
            }
        }),
{
    match worldbook_state(config, session, name) {
        WorldbookState::Off => {
            push_name(session, name);
            false
        },
        WorldbookState::Session => {
            remove_name(session, name);
            push_name(config, name);
            true
        },
        WorldbookState::Global => {
            remove_name(config, name);
            true
        },
    }
}

proof fn lemma_without_excludes(list: Seq<Seq<char>>, name: Seq<char>)
    ensures
        !without(list, name).contains(name),
        forall|x: Seq<char>| x != name ==> (#[trigger] without(list, name).contains(x) <==> list.contains(x)),
{
    let keep = other_than(name);
    let w = list.filter(keep);
    if w.contains(name) {
        let i = choose|i: int| 0 <= i < w.len() && w[i] == name;
        list.lemma_filter_pred(keep, i);
    }
    assert forall|x: Seq<char>| x != name implies (#[trigger] without(list, name).contains(x) <==> list.contains(x)) by {
        if list.contains(x) {
            let i = choose|i: int| 0 <= i < list.len() && list[i] == x;
            list.lemma_filter_contains(keep, i);
        }
        if w.contains(x) {
            list.lemma_filter_contains_rev(keep, x);
        }
    }
}

/// As long as a worldbook is not listed by both the config and the session, choosing
/// it in the picker moves it to the next state (off, session, everywhere, off again)
/// and it stays listed by at most one of them.
pub proof fn law_toggle_cycles(c0: Seq<Seq<char>>, s0: Seq<Seq<char>>, c1: Seq<Seq<char>>, s1: Seq<Seq<char>>, name: Seq<char>)
    requires
        !(c0.contains(name) && s0.contains(name)),
        match state_of(c0, s0, name) {
            WorldbookState::Off => c1 == c0 && s1 == s0.push(name),
            WorldbookState::Session => c1 == c0.push(name) && s1 == without(s0, name),
            WorldbookState::Global => c1 == without(c0, name) && s1 == s0,
        },
    ensures
        state_of(c1, s1, name) == next_state(state_of(c0, s0, name)),
        !(c1.contains(name) && s1.contains(name)),
{
    lemma_without_excludes(s0, name);
    lemma_without_excludes(c0, name);
    match state_of(c0, s0, name) {
        WorldbookState::Off => {
            assert(s1[s0.len() as int] == name);
        },
        WorldbookState::Session => {
            assert(c1[c0.len() as int] == name);
        },
        WorldbookState::Global => {},
    }
}

/// Replaces the first entry equal to `old_name` by `new_name` (a renamed worldbook
/// keeps its place); returns whether there was one.
pub fn rename_in_list(list: &mut Vec<String>, old_name: &str, new_name: &str) -> (found: bool)
    ensures
        ({
            let l0 = string_views(old(list)@);
            let l1 = string_views(final(list)@);
            if l0.contains(old_name@) {
                found && l1 == l0.update(crate::text::first_index(l0, old_name@), new_name@)
            } else {
                !found && l1 == l0
            }
        }),
{
    let target = String::from_str(old_name);
    let ghost l0 = string_views(list@);
    proof { crate::text::lemma_first_index(l0, old_name@); }
    let mut i: usize = 0;
    while i < list.len()
        invariant
            i <= list@.len(),
            target@ == old_name@,
            l0 == string_views(list@),
            l0 == string_views(old(list)@),
            forall|k: int| 0 <= k < i ==> l0[k] != old_name@,
            0 <= crate::text::first_index(l0, old_name@) <= l0.len(),
            crate::text::first_index(l0, old_name@) < l0.len() <==> l0.contains(old_name@),
            crate::text::first_index(l0, old_name@) < l0.len() ==> l0[crate::text::first_index(l0, old_name@)] == old_name@,
            forall|k: int| 0 <= k < crate::text::first_index(l0, old_name@) ==> l0[k] != old_name@,
        decreases list.len() - i,
    {
        assert(l0[i as int] == list@[i as int]@);
        if list[i] == target {
            proof {
                assert(l0[i as int] == old_name@);
                assert(l0.contains(old_name@));
                if crate::text::first_index(l0, old_name@) < i {
                    assert(false);
                }
                if crate::text::first_index(l0, old_name@) > i {
                    assert(l0[i as int] != old_name@);
                }
                assert(crate::text::first_index(l0, old_name@) == i);
            }
            let ghost before = list@;
            list.set(i, String::from_str(new_name));
            assert(string_views(list@) =~= l0.update(i as int, new_name@));
            return true;
        }
        i = i + 1;
    }
    assert(!l0.contains(old_name@));
    false
}

/// The selection after entry `selected` of an editor list was deleted, leaving
/// `len` entries: it stays, or moves up when it fell off the end.
pub fn selection_after_delete(selected: usize, len: usize) -> (r: usize)
    ensures
        r == (if selected >= len && selected > 0 { (selected - 1) as int } else { selected as int }),
{
    if selected >= len && selected > 0 { selected - 1 } else { selected }
}

/// What leaving the worldbook editor does with the edits.
#[derive(Debug, Clone, Copy, PartialEq, Eq, Structural)]
pub enum SaveCheck {
    /// Nothing changed; nothing is saved.
    NoChanges,
    /// The new name belongs to another worldbook; nothing is saved.
    NameTaken,
    /// Save; `rename` when the worldbook had a name and it changed.
    Save { rename: bool },
}

pub open spec fn no_changes_text() -> Seq<char> {
    "No changes found."@
}

pub open spec fn name_taken_text(name: Seq<char>) -> Seq<char> {
    "Name '"@ + name + "' is already in use."@
}

/// Decides how the editor's edits are saved: `entries_changed` says whether the
/// entries differ from those loaded, `names` lists the existing worldbooks. The
/// refusals are reported in the status line.
pub fn check_worldbook_save(original: &str, new_name: &str, entries_changed: bool, names: &Vec<String>, status: &mut Option<StatusMessage>) -> (r: SaveCheck)
    ensures
        original@ == new_name@ && !entries_changed ==> r == SaveCheck::NoChanges
            && (*final(status) matches Some(m) && m.text@ == status_text_spec(no_changes_text()) && m.level == StatusLevel::Info),
        !(original@ == new_name@ && !entries_changed) && original@ != new_name@ && string_views(names@).contains(new_name@)
            ==> r == SaveCheck::NameTaken && (*final(status) matches Some(m)
            && m.text@ == status_text_spec(name_taken_text(new_name@)) && m.level == StatusLevel::Error),
        !(original@ == new_name@ && !entries_changed) && !(original@ != new_name@ && string_views(names@).contains(new_name@))
            ==> r == (SaveCheck::Save { rename: original@.len() > 0 && original@ != new_name@ }) && *final(status) == *old(status),
{
    let a = String::from_str(original);
    let b = String::from_str(new_name);
    let same = a == b;
    if same && !entries_changed {
        set_status(status, String::from_str("No changes found."), StatusLevel::Info);
        return SaveCheck::NoChanges;
    }
    if !same && lists_name(names, new_name) {
        let msg = String::from_str("Name '").concat(new_name).concat("' is already in use.");
        set_status(status, msg, StatusLevel::Error);
        return SaveCheck::NameTaken;
    }
    let rename = crate::text::char_count(original) > 0 && !same;
    SaveCheck::Save { rename }
}

// ---------------------------------------------------------------------
// The worldbook editor
// ---------------------------------------------------------------------

/// The worldbook editor: the name row on top, then one row per entry.
#[derive(Debug, Clone)]
pub struct WorldbookEditorState {
    pub name: String,
    /// The name row is selected (else entry `selected` is).
    pub name_selected: bool,
    /// The name is being typed.
    pub name_editing: bool,
    pub selected: usize,
}

/// What a key in the editor asks the caller to do.
#[derive(Debug, Clone, Copy, PartialEq, Eq, Structural)]
pub enum EditorKey {
    Continue,
    /// The name is full: flash the refusal.
    RejectFlash,
    /// Append a new entry, select it and open it.
    AddEntry,
    /// Open entry `i` in the entry editor.
    OpenEntry(usize),
    /// Ask whether to delete entry `i`.
    ConfirmDelete(usize),
    /// Save the worldbook and return to the picker.
    SaveAndClose,
    /// Move within the entry list (paging keys).
    Paged,
}

/// Handles a key in the editor holding `entries` entries. While the name is typed,
/// characters are added up to `MAX_NAME_LENGTH`, Backspace removes one, Enter or Esc
/// end it. On the name row, Down goes to the first entry, Right or Enter edit the
/// name. On the entries, Up from the first goes to the name row; other movement keys
/// page through the list; Right or Enter open the entry, Backspace or Delete ask to
/// delete it. Everywhere `a` adds an entry and Esc saves and closes.
pub fn handle_worldbook_editor_key(state: &mut WorldbookEditorState, key: KeyEvent, entries: usize) -> (r: EditorKey)
    ensures
        ({
            let o = *old(state);
            let f = *final(state);
            if o.name_editing {
                &&& f.name_selected == o.name_selected && f.selected == o.selected
                &&& match key.code {
                    KeyCode::Char(c) => if o.name@.len() < MAX_NAME_LENGTH {
                        r == EditorKey::Continue && f.name@ == o.name@.push(c) && f.name_editing
                    } else {
                        r == EditorKey::RejectFlash && f.name@ == o.name@ && f.name_editing
                    },
                    KeyCode::Backspace => r == EditorKey::Continue && f.name_editing
                        && f.name@ == (if o.name@.len() > 0 { o.name@.drop_last() } else { o.name@ }),
                    KeyCode::Enter | KeyCode::Esc => r == EditorKey::Continue && !f.name_editing && f.name@ == o.name@,
                    _ => r == EditorKey::Continue && f.name_editing && f.name@ == o.name@,
                }
            } else {
                &&& f.name@ == o.name@
                &&& if o.name_selected {
                    match key.code {
                        KeyCode::Down => if entries > 0 {
                            r == EditorKey::Continue && !f.name_selected && !f.name_editing && f.selected == 0
                        } else {
                            r == EditorKey::Continue && f.name_selected && !f.name_editing && f.selected == o.selected
                        },
                        KeyCode::Right | KeyCode::Enter => r == EditorKey::Continue && f.name_selected && f.name_editing
                            && f.selected == o.selected,
                        KeyCode::Char('a') => r == EditorKey::AddEntry && !f.name_selected && !f.name_editing,
                        KeyCode::Esc => r == EditorKey::SaveAndClose && f.name_selected && !f.name_editing && f.selected == o.selected,
                        _ => r == EditorKey::Continue && f.name_selected && !f.name_editing && f.selected == o.selected,
                    }
                } else if entries == 0 {
                    &&& !f.name_editing && f.selected == o.selected
                    &&& match key.code {
                        KeyCode::Up => r == EditorKey::Continue && f.name_selected,
                        KeyCode::Esc => r == EditorKey::SaveAndClose && !f.name_selected,
                        KeyCode::Char('a') => r == EditorKey::AddEntry && !f.name_selected,
                        _ => r == EditorKey::Continue && !f.name_selected,
                    }
                } else {
                    &&& !f.name_editing && f.selected == o.selected
                    &&& match key.code {
                        KeyCode::Up => if o.selected == 0 {
                            r == EditorKey::Continue && f.name_selected
                        } else {
                            r == EditorKey::Paged && !f.name_selected
                        },
                        KeyCode::Down | KeyCode::PageUp | KeyCode::PageDown | KeyCode::Home | KeyCode::End =>
                            r == EditorKey::Paged && !f.name_selected,
                        KeyCode::Right | KeyCode::Enter => r == EditorKey::OpenEntry(o.selected) && !f.name_selected,
                        KeyCode::Char('a') => r == EditorKey::AddEntry && !f.name_selected,
                        KeyCode::Backspace | KeyCode::Delete => r == EditorKey::ConfirmDelete(o.selected) && !f.name_selected,
                        KeyCode::Esc => r == EditorKey::SaveAndClose && !f.name_selected,
                        _ => r == EditorKey::Continue && !f.name_selected,
                    }
                }
            }
        }),
{
    if state.name_editing {
        match key.code {
            KeyCode::Char(c) => {
                if char_count(state.name.as_str()) < MAX_NAME_LENGTH {
                    push_char(&mut state.name, c);
                    return EditorKey::Continue;
                }
                return EditorKey::RejectFlash;
            },
            KeyCode::Backspace => {
                pop_char(&mut state.name);
            },
            KeyCode::Enter | KeyCode::Esc => {
                state.name_editing = false;
            },
            _ => {},
        }
        return EditorKey::Continue;
    }
    if state.name_selected {
        match key.code {
            KeyCode::Down => {
                if entries > 0 {
                    state.name_selected = false;
                    state.selected = 0;
                }
                EditorKey::Continue
            },
            KeyCode::Right | KeyCode::Enter => {
                state.name_editing = true;
                EditorKey::Continue
            },
            KeyCode::Char('a') => {
                state.name_selected = false;
                EditorKey::AddEntry
            },
            KeyCode::Esc => EditorKey::SaveAndClose,
            _ => EditorKey::Continue,
        }
    } else if entries == 0 {
        match key.code {
            KeyCode::Up => {
                state.name_selected = true;
                EditorKey::Continue
            },
            KeyCode::Esc => EditorKey::SaveAndClose,
            KeyCode::Char('a') => EditorKey::AddEntry,
            _ => EditorKey::Continue,
        }
    } else {
        match key.code {
            KeyCode::Up => {
                if state.selected == 0 {
                    state.name_selected = true;
                    EditorKey::Continue
                } else {
                    EditorKey::Paged
                }
            },
            KeyCode::Down | KeyCode::PageUp | KeyCode::PageDown | KeyCode::Home | KeyCode::End => EditorKey::Paged,
            KeyCode::Right | KeyCode::Enter => EditorKey::OpenEntry(state.selected),
            KeyCode::Char('a') => EditorKey::AddEntry,
            KeyCode::Backspace | KeyCode::Delete => EditorKey::ConfirmDelete(state.selected),
            KeyCode::Esc => EditorKey::SaveAndClose,
            _ => EditorKey::Continue,
        }
    }
}

// ---------------------------------------------------------------------
// Entries as form values
// ---------------------------------------------------------------------

/// A worldbook entry.
#[derive(Debug, Clone, PartialEq, Eq)]
pub struct WorldbookEntry {
    pub keys: Vec<String>,
    pub secondary_keys: Vec<String>,
    pub selective: bool,
    pub content: String,
    pub constant: bool,
    pub enabled: bool,
    pub order: i64,
    pub depth: usize,
    pub case_sensitive: bool,
}

/// The keys joined with `, `.
pub open spec fn join_keys(keys: Seq<Seq<char>>) -> Seq<char>
    decreases keys.len(),
{
    if keys.len() == 0 {
        Seq::empty()
    } else if keys.len() == 1 {
        keys[0]
    } else {
        join_keys(keys.drop_last()) + ", "@ + keys.last()
    }
}

fn join_key_list(keys: &Vec<String>) -> (r: String)
    ensures
        r@ == join_keys(string_views(keys@)),
{
    let ghost ks = string_views(keys@);
    let mut out: Vec<char> = Vec::new();
    let mut i: usize = 0;
    while i < keys.len()
        invariant
            i <= keys@.len(),
            ks == string_views(keys@),
            out@ == join_keys(ks.take(i as int)),
        decreases keys.len() - i,
    {
        let ghost before = out@;
        if i > 0 {
            push_str(&mut out, ", ");
        }
        push_str(&mut out, keys[i].as_str());
        proof {
            let t = ks.take(i + 1);
            assert(t.drop_last() =~= ks.take(i as int));
            assert(t.last() == keys@[i as int]@);
            if i == 0 {
                assert(out@ =~= keys@[0]@);
            } else {
                assert(out@ =~= before + ", "@ + keys@[i as int]@);
            }
        }
        i = i + 1;
    }
    assert(ks.take(i as int) =~= ks);
    string_of(out.as_slice())
}

pub open spec fn bool_text(b: bool) -> Seq<char> {
    if b { "true"@ } else { "false"@ }
}

fn bool_string(b: bool) -> (r: String)
    ensures
        r@ == bool_text(b),
{
    if b { String::from_str("true") } else { String::from_str("false") }
}

/// The entry as the values of its form: keys, content, selective, secondary keys,
/// constant, enabled, order, depth, case sensitive.
pub fn entry_to_values(e: &WorldbookEntry) -> (v: Vec<String>)
    ensures
        v@.len() == 9,
        v@[0]@ == join_keys(string_views(e.keys@)),
        v@[1]@ == e.content@,
        v@[2]@ == bool_text(e.selective),
        v@[3]@ == join_keys(string_views(e.secondary_keys@)),
        v@[4]@ == bool_text(e.constant),
        v@[5]@ == bool_text(e.enabled),
        v@[6]@ == decimal_int(e.order as int),
        v@[7]@ == decimal(e.depth as nat),
        v@[8]@ == bool_text(e.case_sensitive),
{
    let mut order: Vec<char> = Vec::new();
    push_decimal_i64(&mut order, e.order);
    let mut depth: Vec<char> = Vec::new();
    push_decimal(&mut depth, e.depth as u64);
    assert(order@ =~= decimal_int(e.order as int));
    assert(depth@ =~= decimal(e.depth as nat));
    let mut v: Vec<String> = Vec::new();
    v.push(join_key_list(&e.keys));
    v.push(e.content.clone());
    v.push(bool_string(e.selective));
    v.push(join_key_list(&e.secondary_keys));
    v.push(bool_string(e.constant));
    v.push(bool_string(e.enabled));
    v.push(string_of(order.as_slice()));
    v.push(string_of(depth.as_slice()));
    v.push(bool_string(e.case_sensitive));
    v
}

/// The pieces of `s` between commas (`str::split(',')`): one more than there are
/// commas, empty pieces included.
pub open spec fn comma_pieces(s: Seq<char>) -> Seq<Seq<char>>
    decreases s.len(),
{
    if s.len() == 0 {
        seq![Seq::empty()]
    } else {
        let p = comma_pieces(s.drop_last());
        if s.last() == ',' {
            p.push(Seq::empty())
        } else {
            p.update(p.len() - 1, p.last().push(s.last()))
        }
    }
}

proof fn lemma_comma_pieces_nonempty(s: Seq<char>)
    ensures
        comma_pieces(s).len() >= 1,
    decreases s.len(),
{
    if s.len() > 0 {
        lemma_comma_pieces_nonempty(s.drop_last());
    }
}

/// The trimmed pieces that are not empty, in order.
pub open spec fn nonempty_trimmed(pieces: Seq<Seq<char>>) -> Seq<Seq<char>>
    decreases pieces.len(),
{
    if pieces.len() == 0 {
        Seq::empty()
    } else {
        let t = trim(pieces.last());
        nonempty_trimmed(pieces.drop_last()) + if t.len() > 0 { seq![t] } else { Seq::empty() }
    }
}

/// The keys written in a form field: split at commas, trimmed, blanks dropped.
pub open spec fn keys_of(s: Seq<char>) -> Seq<Seq<char>> {
    nonempty_trimmed(comma_pieces(s))
}

fn split_commas(v: &Vec<char>) -> (r: Vec<Vec<char>>)
    ensures
        crate::text::words_view(r@) == comma_pieces(v@),
{
    let mut pieces: Vec<Vec<char>> = Vec::new();
    let mut cur: Vec<char> = Vec::new();
    let mut i: usize = 0;
    while i < v.len()
        invariant
            i <= v@.len(),
            crate::text::words_view(pieces@).push(cur@) == comma_pieces(v@.take(i as int)),
        decreases v.len() - i,
    {
        let ghost before_p = crate::text::words_view(pieces@);
        let ghost before_c = cur@;
        assert(v@.take(i + 1).drop_last() =~= v@.take(i as int));
        let c = v[i];
        if c == ',' {
            let done = cur;
            pieces.push(done);
            cur = Vec::new();
            assert(crate::text::words_view(pieces@) =~= before_p.push(before_c));
            assert(crate::text::words_view(pieces@).push(cur@) =~= before_p.push(before_c).push(Seq::<char>::empty()));
        } else {
            cur.push(c);
            assert(crate::text::words_view(pieces@).push(cur@) =~= before_p.push(before_c).update(before_p.len() as int, before_c.push(c)));
        }
        i = i + 1;
    }
    assert(v@.take(i as int) =~= v@);
    let ghost before_p = crate::text::words_view(pieces@);
    pieces.push(cur);
    assert(crate::text::words_view(pieces@) =~= before_p.push(pieces@.last()@));
    pieces
}

/// The keys written in a form field.
pub fn parse_keys(s: &str) -> (r: Vec<String>)
    ensures
        string_views(r@) == keys_of(s@),
{
    let v = chars_of(s);
    let pieces = split_commas(&v);
    let ghost ps = crate::text::words_view(pieces@);
    let mut out: Vec<String> = Vec::new();
    let mut i: usize = 0;
    while i < pieces.len()
        invariant
            i <= pieces@.len(),
            ps == crate::text::words_view(pieces@),
            string_views(out@) == nonempty_trimmed(ps.take(i as int)),
        decreases pieces.len() - i,
    {
        assert(ps.take(i + 1).drop_last() =~= ps.take(i as int));
        assert(ps.take(i + 1).last() == pieces@[i as int]@);
        let t = trim_chars(pieces[i].as_slice());
        if t.len() > 0 {
            let ghost before = out@;
            out.push(string_of(t.as_slice()));
            assert(string_views(out@) =~= string_views(before).push(t@));
        } else {
            assert(nonempty_trimmed(ps.take(i + 1)) =~= nonempty_trimmed(ps.take(i as int)));
        }
        i = i + 1;
    }
    assert(ps.take(i as int) =~= ps);
    out
}

/// Whether `s` reads `true`, ignoring ASCII case (`eq_ignore_ascii_case("true")`).
pub open spec fn reads_true(s: Seq<char>) -> bool {
    &&& s.len() == 4
    &&& (s[0] == 't' || s[0] == 'T')
    &&& (s[1] == 'r' || s[1] == 'R')
    &&& (s[2] == 'u' || s[2] == 'U')
    &&& (s[3] == 'e' || s[3] == 'E')
}

pub(crate) fn is_true_text(s: &str) -> (b: bool)
    ensures
        b == reads_true(s@),
{
    let v = chars_of(s);
    v.len() == 4 && (v[0] == 't' || v[0] == 'T') && (v[1] == 'r' || v[1] == 'R') && (v[2] == 'u' || v[2] == 'U')
        && (v[3] == 'e' || v[3] == 'E')
}

/// The entry the form's values describe; an order or depth that does not parse keeps
/// the value of `existing`.
pub fn values_to_entry(values: &Vec<String>, existing: &WorldbookEntry) -> (e: WorldbookEntry)
    requires
        values@.len() >= 9,
    ensures
        string_views(e.keys@) == keys_of(values@[0]@),
        e.content@ == values@[1]@,
        e.selective == reads_true(values@[2]@),
        string_views(e.secondary_keys@) == keys_of(values@[3]@),
        e.constant == reads_true(values@[4]@),
        e.enabled == reads_true(values@[5]@),
        e.order == (match parse_signed(values@[6]@, i64::MIN as int, i64::MAX as int) {
            Some(n) => n as i64,
            None => existing.order,
        }),
        e.depth == (match parse_unsigned(values@[7]@, usize::MAX as nat) {
            Some(n) => n as usize,
            None => existing.depth,
        }),
        e.case_sensitive == reads_true(values@[8]@),
{
    let ov = chars_of(values[6].as_str());
    let dv = chars_of(values[7].as_str());
    let order = match parse_i64_chars(ov.as_slice()) {
        Some(n) => n,
        None => existing.order,
    };
    let depth = match parse_usize_chars(dv.as_slice()) {
        Some(n) => n,
        None => existing.depth,
    };
    WorldbookEntry {
        keys: parse_keys(values[0].as_str()),
        content: values[1].clone(),
        selective: is_true_text(values[2].as_str()),
        secondary_keys: parse_keys(values[3].as_str()),
        constant: is_true_text(values[4].as_str()),
        enabled: is_true_text(values[5].as_str()),
        order,
        depth,
        case_sensitive: is_true_text(values[8].as_str()),
    }
}


// ---------------------------------------------------------------------
// Reading an unchanged entry back
// ---------------------------------------------------------------------

/// A key that survives being written into the form and read back: not empty, no
/// whitespace at either end, no comma.
pub open spec fn clean_key(k: Seq<char>) -> bool {
    &&& k.len() > 0
    &&& !is_ws(k[0])
    &&& !is_ws(k.last())
    &&& !k.contains(',')
}

proof fn lemma_pieces_append_plain(s: Seq<char>, t: Seq<char>)
    requires
        !t.contains(','),
    ensures
        comma_pieces(s).len() >= 1,
        comma_pieces(s + t) == comma_pieces(s).update(
            comma_pieces(s).len() - 1,
            comma_pieces(s).last() + t,
        ),
    decreases t.len(),
{
    lemma_comma_pieces_nonempty(s);
    let p = comma_pieces(s);
    if t.len() == 0 {
        assert(s + t =~= s);
        assert(p.last() + t =~= p.last());
        assert(p.update(p.len() - 1, p.last()) =~= p);
    } else {
        let t1 = t.drop_last();
        let c = t.last();
        assert(!t1.contains(',')) by {
            if t1.contains(',') {
                let j = choose|j: int| 0 <= j < t1.len() && t1[j] == ',';
                assert(t[j] == ',');
            }
        }
        assert(t.contains(c));
        lemma_pieces_append_plain(s, t1);
        assert((s + t).drop_last() =~= s + t1);
        assert((s + t).last() == c);
        let q = comma_pieces(s + t1);
        assert(q.len() == p.len());
        assert(comma_pieces(s + t) == q.update(q.len() - 1, q.last().push(c)));
        assert(q.last() == p.last() + t1);
        assert((p.last() + t1).push(c) =~= p.last() + t);
        assert(comma_pieces(s + t) =~= p.update(p.len() - 1, p.last() + t));
    }
}

proof fn lemma_trim_spaced_key(k: Seq<char>)
    requires
        clean_key(k),
    ensures
        trim(seq![' '] + k) == k,
{
    let s = seq![' '] + k;
    assert(is_ws(s[0]));
    assert(s[1] == k[0]);
    assert(skip_ws_from(s, 1) == 1);
    assert(skip_ws_from(s, 0) == 1);
    assert(s[s.len() - 1] == k.last());
    assert(back_ws_from(s, 1, s.len() as int) == s.len());
    assert(s.subrange(1, s.len() as int) =~= k);
}

proof fn lemma_keys_round_trip(ks: Seq<Seq<char>>)
    requires
        forall|i: int| 0 <= i < ks.len() ==> clean_key(#[trigger] ks[i]),
    ensures
        keys_of(join_keys(ks)) == ks,
    decreases ks.len(),
{
    if ks.len() == 0 {
        let e = Seq::<char>::empty();
        assert(comma_pieces(e) == seq![e]);
        assert(seq![e].drop_last() =~= Seq::<Seq<char>>::empty());
        assert(trim(e) =~= e);
        assert(seq![e].last() == e);
        assert(nonempty_trimmed(Seq::<Seq<char>>::empty()) == Seq::<Seq<char>>::empty());
        assert(nonempty_trimmed(seq![e]) == nonempty_trimmed(seq![e].drop_last()) + Seq::<Seq<char>>::empty());
        assert(nonempty_trimmed(seq![e]) =~= Seq::<Seq<char>>::empty());
    } else if ks.len() == 1 {
        let k = ks[0];
        let e = Seq::<char>::empty();
        lemma_pieces_append_plain(e, k);
        assert(e + k =~= k);
        assert(comma_pieces(e) == seq![e]);
        assert(comma_pieces(k) =~= seq![k]);
        lemma_no_ws_trim(k);
        assert(seq![k].drop_last() =~= Seq::<Seq<char>>::empty());
        assert(seq![k].last() == k);
        assert(nonempty_trimmed(Seq::<Seq<char>>::empty()) == Seq::<Seq<char>>::empty());
        assert(nonempty_trimmed(seq![k]) == nonempty_trimmed(seq![k].drop_last()) + seq![k]);
        assert(nonempty_trimmed(seq![k]) =~= seq![k]);
        assert(ks =~= seq![k]);
    } else {
        let rest = ks.drop_last();
        let k = ks.last();
        assert forall|i: int| 0 <= i < rest.len() implies clean_key(#[trigger] rest[i]) by {
            assert(rest[i] == ks[i]);
        }
        lemma_keys_round_trip(rest);
        let j = join_keys(rest);
        assert(join_keys(ks) == j + ", "@ + k);
        let sk = seq![' '] + k;
        assert(!sk.contains(',')) by {
            if sk.contains(',') {
                let m = choose|m: int| 0 <= m < sk.len() && sk[m] == ',';
                assert(k[m - 1] == ',');
            }
        }
        let jc = j + seq![','];
        reveal_strlit(", ");
        assert(j + ", "@ + k =~= jc + sk);
        lemma_pieces_append_plain(jc, sk);
        lemma_comma_pieces_nonempty(j);
        assert(jc.drop_last() =~= j);
        assert(comma_pieces(jc) == comma_pieces(j).push(Seq::<char>::empty()));
        let pj = comma_pieces(j);
        assert(comma_pieces(jc + sk) =~= pj.push(sk)) by {
            assert(Seq::<char>::empty() + sk =~= sk);
        }
        lemma_trim_spaced_key(k);
        assert(pj.push(sk).drop_last() =~= pj);
        assert(nonempty_trimmed(pj.push(sk)) == nonempty_trimmed(pj) + seq![k]);
        assert(rest.push(k) =~= ks);
        assert(nonempty_trimmed(pj) + seq![k] =~= rest.push(k));
    }
}

/// An entry shown in its form and saved unchanged reads back as itself: its keys (when
/// each is clean, see `clean_key`), its flags, its order and its depth.
pub proof fn law_entry_round_trip(e: WorldbookEntry)
    requires
        forall|i: int| 0 <= i < e.keys@.len() ==> clean_key(#[trigger] e.keys@[i]@),
        forall|i: int| 0 <= i < e.secondary_keys@.len() ==> clean_key(#[trigger] e.secondary_keys@[i]@),
    ensures
        keys_of(join_keys(string_views(e.keys@))) == string_views(e.keys@),
        keys_of(join_keys(string_views(e.secondary_keys@))) == string_views(e.secondary_keys@),
        forall|b: bool| #[trigger] reads_true(bool_text(b)) == b,
        parse_signed(decimal_int(e.order as int), i64::MIN as int, i64::MAX as int) == Some(
            e.order as int,
        ),
        parse_unsigned(decimal(e.depth as nat), usize::MAX as nat) == Some(e.depth as nat),
{
    let ks = string_views(e.keys@);
    assert forall|i: int| 0 <= i < ks.len() implies clean_key(#[trigger] ks[i]) by {
        assert(ks[i] == e.keys@[i]@);
    }
    lemma_keys_round_trip(ks);
    let ss = string_views(e.secondary_keys@);
    assert forall|i: int| 0 <= i < ss.len() implies clean_key(#[trigger] ss[i]) by {
        assert(ss[i] == e.secondary_keys@[i]@);
    }
    lemma_keys_round_trip(ss);
    assert forall|b: bool| #[trigger] reads_true(bool_text(b)) == b by {
        reveal_strlit("true");
        reveal_strlit("false");
    }
    lemma_signed_round_trip(e.order as int, i64::MIN as int, i64::MAX as int);
    lemma_unsigned_round_trip(e.depth as nat, usize::MAX as nat);
}


/// A new entry: no keys, empty content, enabled, order 10, depth 4, every other flag
/// off.
pub open spec fn is_new_entry(e: WorldbookEntry) -> bool {
    &&& e.keys@.len() == 0
    &&& e.secondary_keys@.len() == 0
    &&& !e.selective
    &&& e.content@.len() == 0
    &&& !e.constant
    &&& e.enabled
    &&& e.order == 10
    &&& e.depth == 4
    &&& !e.case_sensitive
}

/// Adds a new entry (see `is_new_entry`) at the end of the editor's list and returns
/// its index, which becomes the selection.
pub fn add_new_entry(entries: &mut Vec<WorldbookEntry>) -> (idx: usize)
    requires
        old(entries)@.len() < usize::MAX,
    ensures
        idx == old(entries)@.len(),
        final(entries)@.len() == old(entries)@.len() + 1,
        final(entries)@.take(idx as int) == old(entries)@,
        is_new_entry(final(entries)@[idx as int]),
{
    let e = WorldbookEntry {
        keys: Vec::new(),
        secondary_keys: Vec::new(),
        selective: false,
        content: String::new(),
        constant: false,
        enabled: true,
        order: 10,
        depth: 4,
        case_sensitive: false,
    };
    entries.push(e);
    let idx = entries.len() - 1;
    assert(entries@.take(idx as int) =~= old(entries)@);
    idx
}

/// Deletes the selected entry of the editor's list after the deletion was confirmed;
/// the selection stays, or moves up when it fell off the end.
pub fn delete_selected_entry(entries: &mut Vec<WorldbookEntry>, selected: &mut usize)
    requires
        *old(selected) < old(entries)@.len(),
    ensures
        final(entries)@ == old(entries)@.remove(*old(selected) as int),
        *final(selected) == (if *old(selected) >= final(entries)@.len() && *old(selected) > 0 {
            *old(selected) - 1
        } else {
            *old(selected) as int
        }),
{
    let idx = *selected;
    entries.remove(idx);
    *selected = selection_after_delete(idx, entries.len());
}

} // verus!
