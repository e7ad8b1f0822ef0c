//! Field-editor dialogs: the single-list `FieldDialog` and the tabbed
//! `TabbedFieldDialog` used by `/config` and `/theme`. Multi-line fields are edited
//! in a text area owned by the caller; the checks of typed characters are the
//! caller's too (they are handed in as verdicts).

use vstd::prelude::*;
use crate::keys::{KeyCode, KeyEvent};
use crate::text::{char_count, insert_char_at, remove_char_at, clamp_pos, string_views};
use crate::thought::instant_now;
use crate::layout::{Rect, centered_rect, centered_spec};
use crate::text::chars_of;
use crate::validation::{FieldValidation, accepts};

verus! {

// ---------------------------------------------------------------------
// Editing one line of a field
// ---------------------------------------------------------------------

/// Value and cursor after an editing key on a single-line field. `accepted` says
/// whether the field's validation accepts a typed character.
pub open spec fn line_edit(value: Seq<char>, cursor: usize, code: KeyCode, accepted: bool) -> (Seq<char>, usize) {
    match code {
        KeyCode::Char(c) => if accepted {
            (value.insert(clamp_pos(cursor as int, value.len() as int), c), (cursor + 1) as usize)
        } else {
            (value, cursor)
        },
        KeyCode::Backspace => if cursor > 0 {
            (value.remove(cursor - 1), (cursor - 1) as usize)
        } else {
            (value, cursor)
        },
        KeyCode::Delete => if cursor < value.len() {
            (value.remove(cursor as int), cursor)
        } else {
            (value, cursor)
        },
        KeyCode::Left => if cursor > 0 {
            (value, (cursor - 1) as usize)
        } else {
            (value, cursor)
        },
        KeyCode::Right => if cursor < value.len() {
            (value, (cursor + 1) as usize)
        } else {
            (value, cursor)
        },
        KeyCode::Home => (value, 0usize),
        KeyCode::End => (value, value.len() as usize),
        _ => (value, cursor),
    }
}

/// The cursor stands within the value, and one more character fits.
pub open spec fn cursor_ok(value: Seq<char>, cursor: usize) -> bool {
    cursor <= value.len() && value.len() < usize::MAX
}

fn edit_line(value: &mut String, cursor: &mut usize, code: KeyCode, accepted: bool)
    requires
        cursor_ok(old(value)@, *old(cursor)),
    ensures
        (final(value)@, *final(cursor)) == line_edit(old(value)@, *old(cursor), code, accepted),
{
    match code {
        KeyCode::Char(c) => {
            if accepted {
                insert_char_at(value, *cursor, c);
                *cursor = *cursor + 1;
            }
        },
        KeyCode::Backspace => {
            if *cursor > 0 {
                *cursor = *cursor - 1;
                remove_char_at(value, *cursor);
            }
        },
        KeyCode::Delete => {
            let n = char_count(value.as_str());
            if *cursor < n {
                remove_char_at(value, *cursor);
            }
        },
        KeyCode::Left => {
            if *cursor > 0 {
                *cursor = *cursor - 1;
            }
        },
        KeyCode::Right => {
            let n = char_count(value.as_str());
            if *cursor < n {
                *cursor = *cursor + 1;
            }
        },
        KeyCode::Home => {
            *cursor = 0;
        },
        KeyCode::End => {
            *cursor = char_count(value.as_str());
        },
        _ => {},
    }
}

/// Applies an editing key to a single-line value and its cursor (see `line_edit`).
pub fn edit_line_pub(value: &mut String, cursor: &mut usize, code: KeyCode, accepted: bool)
    requires
        cursor_ok(old(value)@, *old(cursor)),
    ensures
        (final(value)@, *final(cursor)) == line_edit(old(value)@, *old(cursor), code, accepted),
{
    edit_line(value, cursor, code, accepted)
}

/// `"false"` for `"true"`, else `"true"`: Enter on a yes/no field.
pub open spec fn toggled(v: Seq<char>) -> Seq<char> {
    if v == "true"@ {
        "false"@
    } else {
        "true"@
    }
}

fn toggle_value(v: &String) -> (r: String)
    ensures
        r@ == toggled(v@),
{
    let t = String::from_str("true");
    if *v == t {
        String::from_str("false")
    } else {
        String::from_str("true")
    }
}

/// `b` equals `a` but at index `i`, where `b[i]@ == v`.
pub open spec fn strings_set_at(a: Seq<String>, b: Seq<String>, i: int, v: Seq<char>) -> bool {
    &&& b.len() == a.len()
    &&& b[i]@ == v
    &&& forall|j: int| 0 <= j < a.len() && j != i ==> #[trigger] b[j] == a[j]
}

fn set_string_at(v: &mut Vec<String>, i: usize, s: String)
    requires
        i < old(v)@.len(),
    ensures
        strings_set_at(old(v)@, final(v)@, i as int, s@),
        final(v)@ == old(v)@.update(i as int, s),
{
    v.remove(i);
    v.insert(i, s);
}

fn index_in(v: &Vec<usize>, x: usize) -> (b: bool)
    ensures
        b == v@.contains(x),
{
    let mut i: usize = 0;
    while i < v.len()
        invariant
            i <= v.len(),
            forall|k: int| 0 <= k < i ==> v@[k] != x,
        decreases v.len() - i,
    {
        if v[i] == x {
            assert(v@[i as int] == x);
            return true;
        }
        i = i + 1;
    }
    false
}

// ---------------------------------------------------------------------
// Moving between fields
// ---------------------------------------------------------------------

/// The field selected by Up from `sel`: the nearest field above that is not skipped,
/// else the first field.
pub open spec fn field_above(sel: nat, skip: Seq<usize>) -> nat
    decreases sel,
{
    if sel == 0 {
        0
    } else if !skip.contains((sel - 1) as usize) {
        (sel - 1) as nat
    } else {
        field_above((sel - 1) as nat, skip)
    }
}

/// The field selected by Down from `sel` among `len` fields: the nearest field below
/// that is not skipped, else the last field (or `sel` when it is the last).
pub open spec fn field_below(sel: nat, len: nat, skip: Seq<usize>) -> nat
    decreases len - sel,
{
    if sel + 1 >= len {
        sel
    } else if !skip.contains((sel + 1) as usize) {
        sel + 1
    } else {
        field_below(sel + 1, len, skip)
    }
}

fn move_up(sel: usize, skip: &Vec<usize>, skip2: &Vec<usize>) -> (r: usize)
    ensures
        r == field_above(sel as nat, skip@ + skip2@),
{
    let ghost both = skip@ + skip2@;
    let mut s = sel;
    while s > 0
        invariant
            s <= sel,
            both == skip@ + skip2@,
            field_above(sel as nat, both) == field_above(s as nat, both),
        decreases s,
    {
        s = s - 1;
        let skipped = index_in(skip, s) || index_in(skip2, s);
        assert(both.contains(s) <==> (skip@.contains(s) || skip2@.contains(s))) by {
            if both.contains(s) {
                let w = choose|w: int| 0 <= w < both.len() && both[w] == s;
                if w >= skip@.len() {
                    assert(skip2@[w - skip@.len()] == s);
                }
            }
            if skip@.contains(s) {
                let w = choose|w: int| 0 <= w < skip@.len() && skip@[w] == s;
                assert(both[w] == s);
            }
            if skip2@.contains(s) {
                let w = choose|w: int| 0 <= w < skip2@.len() && skip2@[w] == s;
                assert(both[w + skip@.len()] == s);
            }
        }
        if !skipped {
            return s;
        }
    }
    s
}

fn move_down(sel: usize, len: usize, skip: &Vec<usize>, skip2: &Vec<usize>) -> (r: usize)
    ensures
        r == field_below(sel as nat, len as nat, skip@ + skip2@),
{
    let ghost both = skip@ + skip2@;
    let mut s = sel;
    while s < len && s + 1 < len
        invariant
            sel <= s,
            both == skip@ + skip2@,
            field_below(sel as nat, len as nat, both) == field_below(s as nat, len as nat, both),
        decreases len - s,
    {
        s = s + 1;
        let skipped = index_in(skip, s) || index_in(skip2, s);
        assert(both.contains(s) <==> (skip@.contains(s) || skip2@.contains(s))) by {
            if both.contains(s) {
                let w = choose|w: int| 0 <= w < both.len() && both[w] == s;
                if w >= skip@.len() {
                    assert(skip2@[w - skip@.len()] == s);
                }
            }
            if skip@.contains(s) {
                let w = choose|w: int| 0 <= w < skip@.len() && skip@[w] == s;
                assert(both[w] == s);
            }
            if skip2@.contains(s) {
                let w = choose|w: int| 0 <= w < skip2@.len() && skip2@[w] == s;
                assert(both[w + skip@.len()] == s);
            }
        }
        if !skipped {
            return s;
        }
    }
    s
}


// ---------------------------------------------------------------------
// The tabbed dialog
// ---------------------------------------------------------------------

/// One tab of a tabbed field dialog: its fields, their values (and the values it was
/// opened with), which fields behave specially, and the selected field.
#[derive(Debug)]
pub struct TabSection {
    pub title: &'static str,
    pub labels: Vec<&'static str>,
    pub values: Vec<String>,
    pub original_values: Vec<String>,
    /// Edited in a multi-line text area.
    pub multiline_fields: Vec<usize>,
    /// Yes/no fields, toggled by Enter.
    pub boolean_fields: Vec<usize>,
    /// Enter opens a picker for these.
    pub selector_fields: Vec<usize>,
    /// Enter runs an action for these.
    pub action_fields: Vec<usize>,
    /// Headings between groups of fields; never selected.
    pub separator_fields: Vec<usize>,
    pub placeholder_fields: Vec<usize>,
    pub placeholder_text: Option<&'static str>,
    /// Set on the command line; not editable here.
    pub locked_fields: Vec<usize>,
    /// Fields whose typed characters and final value the caller checks.
    pub validated_fields: Vec<usize>,
    /// Color fields shown with a swatch; Delete clears them.
    pub color_preview_fields: Vec<usize>,
    pub selected: usize,
}

/// What a key press in a tabbed field dialog asks for.
#[derive(Debug, Clone, Copy, PartialEq, Eq, Structural)]
pub enum TabbedFieldAction {
    Continue,
    Close,
    OpenSelector { section: usize, field: usize },
    InvokeAction { section: usize, field: usize },
}

/// The caller's checks for the field being edited: whether the character of this
/// key press is accepted, and whether the value as it stands may be committed.
#[derive(Debug, Clone, Copy, PartialEq, Eq, Structural)]
pub struct FieldVerdict {
    pub char_accepted: bool,
    pub value_valid: bool,
}

/// A dialog of fields in tabs.
pub struct TabbedFieldDialog {
    title: &'static str,
    sections: Vec<TabSection>,
    current_tab: usize,
    editing: bool,
    cursor_pos: usize,
    /// Whether the selected field is open in the caller's multi-line text area.
    multiline_open: bool,
    /// When the last typed character was refused (the dialog flashes briefly).
    reject_flash: Option<std::time::Instant>,
    clipboard_warning: Option<String>,
}

impl TabSection {
    /// Its values and field lists line up with its labels, and the selection lies on
    /// a field.
    pub open spec fn well_formed(self) -> bool {
        &&& self.labels@.len() > 0
        &&& self.values@.len() == self.labels@.len()
        &&& self.selected < self.labels@.len()
        &&& forall|i: int| 0 <= i < self.values@.len() ==> #[trigger] self.values@[i]@.len() < usize::MAX
    }

    /// `b` is `a` with the selection `sel` and values `vals`, all else equal.
    pub open spec fn same_but(a: TabSection, b: TabSection) -> bool {
        &&& b.title == a.title
        &&& b.labels == a.labels
        &&& b.original_values == a.original_values
        &&& b.multiline_fields == a.multiline_fields
        &&& b.boolean_fields == a.boolean_fields
        &&& b.selector_fields == a.selector_fields
        &&& b.action_fields == a.action_fields
        &&& b.separator_fields == a.separator_fields
        &&& b.placeholder_fields == a.placeholder_fields
        &&& b.placeholder_text == a.placeholder_text
        &&& b.locked_fields == a.locked_fields
        &&& b.validated_fields == a.validated_fields
        &&& b.color_preview_fields == a.color_preview_fields
    }
}

/// What kind of field `f` of section `s` is, as Enter sees it.
pub open spec fn enter_kind(s: TabSection, f: usize) -> int {
    if s.locked_fields@.contains(f) {
        0
    } else if s.action_fields@.contains(f) {
        1
    } else if s.selector_fields@.contains(f) {
        2
    } else if s.boolean_fields@.contains(f) {
        3
    } else if s.multiline_fields@.contains(f) {
        4
    } else {
        5
    }
}

impl TabbedFieldDialog {
    pub closed spec fn tabs(self) -> Seq<TabSection> {
        self.sections@
    }

    pub closed spec fn title_spec(self) -> &'static str {
        self.title
    }

    pub closed spec fn flash_set(self) -> bool {
        self.reject_flash is Some
    }

    pub closed spec fn warning(self) -> Option<String> {
        self.clipboard_warning
    }

    pub closed spec fn tab(self) -> usize {
        self.current_tab
    }

    pub closed spec fn in_line_edit(self) -> bool {
        self.editing
    }

    pub closed spec fn cursor(self) -> usize {
        self.cursor_pos
    }

    pub closed spec fn in_multiline(self) -> bool {
        self.multiline_open
    }

    /// The sections are well formed and the current tab is one of them.
    pub open spec fn well_formed(self) -> bool {
        &&& self.tabs().len() > 0
        &&& self.tab() < self.tabs().len()
        &&& forall|i: int| 0 <= i < self.tabs().len() ==> (#[trigger] self.tabs()[i]).well_formed()
        &&& self.in_line_edit() ==> cursor_ok(self.selected_value(), self.cursor())
    }

    /// The section on the current tab.
    pub open spec fn section(self) -> TabSection {
        self.tabs()[self.tab() as int]
    }

    /// The value of the selected field of the current tab.
    pub open spec fn selected_value(self) -> Seq<char> {
        self.section().values@[self.section().selected as int]@
    }

    /// A dialog on its first tab, not editing.
    pub fn new(title: &'static str, sections: Vec<TabSection>) -> (d: Self)
        ensures
            d.title_spec() == title,
            d.tabs() == sections@,
            d.tab() == 0,
            !d.in_line_edit(),
            !d.in_multiline(),
            !d.flash_set(),
            d.warning() is None,
    {
        TabbedFieldDialog {
            title,
            sections,
            current_tab: 0,
            editing: false,
            cursor_pos: 0,
            multiline_open: false,
            reject_flash: None,
            clipboard_warning: None,
        }
    }

    pub fn title(&self) -> (t: &'static str)
        ensures
            t == self.title_spec(),
    {
        self.title
    }

    /// When the last typed character was refused, if it was.
    pub fn reject_flash(&self) -> (r: Option<std::time::Instant>)
        ensures
            r is Some == self.flash_set(),
    {
        self.reject_flash
    }

    /// Ends the flash of a refused character.
    pub fn clear_reject_flash(&mut self)
        ensures
            !final(self).flash_set(),
            final(self).tabs() == old(self).tabs(),
            final(self).tab() == old(self).tab(),
            final(self).in_line_edit() == old(self).in_line_edit(),
            final(self).cursor() == old(self).cursor(),
            final(self).in_multiline() == old(self).in_multiline(),
            final(self).warning() == old(self).warning(),
            final(self).title_spec() == old(self).title_spec(),
    {
        self.reject_flash = None;
    }

    /// The warning of the last clipboard key, if any.
    pub fn clipboard_warning(&self) -> (w: &Option<String>)
        ensures
            *w == self.warning(),
    {
        &self.clipboard_warning
    }

    /// Records the warning of a clipboard key.
    pub fn set_clipboard_warning(&mut self, w: Option<String>)
        ensures
            final(self).warning() == w,
            final(self).flash_set() == old(self).flash_set(),
            final(self).tabs() == old(self).tabs(),
            final(self).tab() == old(self).tab(),
            final(self).in_line_edit() == old(self).in_line_edit(),
            final(self).cursor() == old(self).cursor(),
            final(self).in_multiline() == old(self).in_multiline(),
            final(self).title_spec() == old(self).title_spec(),
    {
        self.clipboard_warning = w;
    }

    pub fn current_tab(&self) -> (t: usize)
        ensures
            t == self.tab(),
    {
        self.current_tab
    }

    pub fn sections(&self) -> (s: &[TabSection])
        ensures
            s@ == self.tabs(),
    {
        self.sections.as_slice()
    }

    /// Whether a single-line or multi-line edit is under way.
    pub fn is_editing(&self) -> (b: bool)
        ensures
            b == (self.in_line_edit() || self.in_multiline()),
    {
        self.editing || self.multiline_open
    }

    /// Whether the selected field is open in the multi-line text area.
    pub fn multiline_open(&self) -> (b: bool)
        ensures
            b == self.in_multiline(),
    {
        self.multiline_open
    }

    /// Whether any value differs from the value the dialog was opened with.
    pub fn has_changes(&self) -> (b: bool)
        ensures
            b == exists|i: int|
                0 <= i < self.tabs().len() && string_views((#[trigger] self.tabs()[i]).values@)
                    != string_views(self.tabs()[i].original_values@),
    {
        let mut i: usize = 0;
        while i < self.sections.len()
            invariant
                i <= self.sections@.len(),
                forall|k: int|
                    0 <= k < i ==> string_views((#[trigger] self.sections@[k]).values@)
                        == string_views(self.sections@[k].original_values@),
            decreases self.sections.len() - i,
        {
            let s = &self.sections[i];
            if !strings_equal(&s.values, &s.original_values) {
                return true;
            }
            i = i + 1;
        }
        false
    }
}

/// Whether two lists of strings are equal.
fn strings_equal(a: &Vec<String>, b: &Vec<String>) -> (r: bool)
    ensures
        r == (string_views(a@) == string_views(b@)),
{
    if a.len() != b.len() {
        assert(string_views(a@).len() != string_views(b@).len());
        return false;
    }
    let mut i: usize = 0;
    while i < a.len()
        invariant
            i <= a.len(),
            a.len() == b.len(),
            forall|k: int| 0 <= k < i ==> a@[k]@ == b@[k]@,
        decreases a.len() - i,
    {
        if a[i] != b[i] {
            assert(string_views(a@)[i as int] != string_views(b@)[i as int]);
            return false;
        }
        i = i + 1;
    }
    assert(string_views(a@) =~= string_views(b@));
    true
}


/// `new` is `old` with section `t` given the selection `sel`, all else equal.
pub open spec fn tab_selection_changed(old: Seq<TabSection>, new: Seq<TabSection>, t: int, sel: usize) -> bool {
    &&& new.len() == old.len()
    &&& forall|j: int| 0 <= j < old.len() && j != t ==> #[trigger] new[j] == old[j]
    &&& TabSection::same_but(old[t], new[t])
    &&& new[t].values == old[t].values
    &&& new[t].selected == sel
}

/// `new` is `old` with the selected value of section `t` replaced by `v`, all else
/// equal.
pub open spec fn tab_value_changed(old: Seq<TabSection>, new: Seq<TabSection>, t: int, v: Seq<char>) -> bool {
    &&& new.len() == old.len()
    &&& forall|j: int| 0 <= j < old.len() && j != t ==> #[trigger] new[j] == old[j]
    &&& TabSection::same_but(old[t], new[t])
    &&& new[t].selected == old[t].selected
    &&& strings_set_at(old[t].values@, new[t].values@, old[t].selected as int, v)
}

impl TabbedFieldDialog {
    /// The fields that only change with `f` (the selection, the values, the tab and the
    /// edit state stay as they were unless `f` says otherwise).
    pub open spec fn rest_same(self, other: Self) -> bool {
        &&& other.title_spec() == self.title_spec()
        &&& other.warning() == self.warning()
    }

    fn set_selected(&mut self, sel: usize)
        requires
            old(self).well_formed(),
            sel < old(self).section().labels@.len(),
        ensures
            tab_selection_changed(old(self).tabs(), final(self).tabs(), old(self).tab() as int, sel),
            final(self).tab() == old(self).tab(),
            final(self).in_line_edit() == old(self).in_line_edit(),
            final(self).cursor() == old(self).cursor(),
            final(self).in_multiline() == old(self).in_multiline(),
            final(self).flash_set() == old(self).flash_set(),
            old(self).rest_same(*final(self)),
    {
        let t = self.current_tab;
        let mut s = self.sections.remove(t);
        s.selected = sel;
        self.sections.insert(t, s);
    }

    fn set_selected_value(&mut self, v: String)
        requires
            old(self).well_formed(),
        ensures
            tab_value_changed(old(self).tabs(), final(self).tabs(), old(self).tab() as int, v@),
            final(self).tab() == old(self).tab(),
            final(self).in_line_edit() == old(self).in_line_edit(),
            final(self).cursor() == old(self).cursor(),
            final(self).in_multiline() == old(self).in_multiline(),
            final(self).flash_set() == old(self).flash_set(),
            old(self).rest_same(*final(self)),
    {
        let t = self.current_tab;
        let mut s = self.sections.remove(t);
        assert(s == old(self).tabs()[t as int]);
        let sel = s.selected;
        set_string_at(&mut s.values, sel, v);
        self.sections.insert(t, s);
    }

    /// Closes the multi-line text area, storing its text in the selected field.
    pub fn close_multiline_editor(&mut self, content: String)
        requires
            old(self).well_formed(),
        ensures
            !final(self).in_multiline(),
            tab_value_changed(old(self).tabs(), final(self).tabs(), old(self).tab() as int, content@),
            final(self).tab() == old(self).tab(),
            final(self).in_line_edit() == old(self).in_line_edit(),
            final(self).cursor() == old(self).cursor(),
            final(self).flash_set() == old(self).flash_set(),
            old(self).rest_same(*final(self)),
    {
        self.set_selected_value(content);
        self.multiline_open = false;
    }

    /// Handles a key while no multi-line text area is open. While a field is being
    /// edited, Enter and Esc end the edit (if the caller finds the value valid) and the
    /// editing keys edit it; otherwise Tab and Shift-Tab change tabs, Up and Down move
    /// between fields (skipping separators), Enter acts on the selected field by its
    /// kind, Delete clears an unlocked color field and Esc closes the dialog.
    pub fn handle_key(&mut self, key: KeyEvent, verdict: FieldVerdict) -> (r: TabbedFieldAction)
        requires
            old(self).well_formed(),
            !old(self).in_multiline(),
        ensures
            final(self).well_formed() || (final(self).in_line_edit() && final(self).selected_value().len() == usize::MAX),
            old(self).rest_same(*final(self)),
            ({
                let o = *old(self);
                let f = *final(self);
                let t = o.tab() as int;
                let sec = o.section();
                let sel = sec.selected;
                let n = o.tabs().len();
                if o.in_line_edit() {
                    &&& r == TabbedFieldAction::Continue
                    &&& f.tab() == o.tab() && !f.in_multiline()
                    &&& if key.code == KeyCode::Enter || key.code == KeyCode::Esc {
                        &&& f.tabs() == o.tabs() && f.cursor() == o.cursor()
                        &&& f.in_line_edit() == !verdict.value_valid
                        &&& (!verdict.value_valid ==> f.flash_set())
                        &&& (verdict.value_valid ==> f.flash_set() == o.flash_set())
                    } else {
                        let (v, c) = line_edit(o.selected_value(), o.cursor(), key.code, verdict.char_accepted);
                        &&& f.in_line_edit()
                        &&& tab_value_changed(o.tabs(), f.tabs(), t, v)
                        &&& f.cursor() == c
                        &&& ((key.code is Char && !verdict.char_accepted) ==> f.flash_set())
                        &&& (!(key.code is Char && !verdict.char_accepted) ==> f.flash_set() == o.flash_set())
                    }
                } else {
                    &&& f.flash_set() == o.flash_set()
                    &&& match key.code {
                        KeyCode::Tab => r == TabbedFieldAction::Continue && f.tabs() == o.tabs()
                            && f.tab() == (o.tab() + 1) % (n as int) && !f.in_line_edit() && !f.in_multiline(),
                        KeyCode::BackTab => r == TabbedFieldAction::Continue && f.tabs() == o.tabs()
                            && f.tab() == (if o.tab() == 0 { n - 1 } else { o.tab() - 1 })
                            && !f.in_line_edit() && !f.in_multiline(),
                        KeyCode::Char(c) => r == TabbedFieldAction::Continue && f.tabs() == o.tabs()
                            && !f.in_line_edit() && !f.in_multiline() && f.tab() == (if c == '\t' && key.modifiers.shift {
                                if o.tab() == 0 { n - 1 } else { o.tab() - 1 }
                            } else {
                                o.tab() as int
                            }),
                        KeyCode::Up => r == TabbedFieldAction::Continue && f.tab() == o.tab()
                            && !f.in_line_edit() && !f.in_multiline()
                            && tab_selection_changed(o.tabs(), f.tabs(), t, field_above(sel as nat, sec.separator_fields@) as usize),
                        KeyCode::Down => r == TabbedFieldAction::Continue && f.tab() == o.tab()
                            && !f.in_line_edit() && !f.in_multiline()
                            && tab_selection_changed(o.tabs(), f.tabs(), t,
                                field_below(sel as nat, sec.labels@.len(), sec.separator_fields@) as usize),
                        KeyCode::Enter => f.tab() == o.tab() && {
                            let k = enter_kind(sec, sel);
                            if k == 0 {
                                r == TabbedFieldAction::Continue && f.tabs() == o.tabs() && !f.in_line_edit() && !f.in_multiline()
                            } else if k == 1 {
                                r == TabbedFieldAction::InvokeAction { section: o.tab(), field: sel }
                                    && f.tabs() == o.tabs() && !f.in_line_edit() && !f.in_multiline()
                            } else if k == 2 {
                                r == TabbedFieldAction::OpenSelector { section: o.tab(), field: sel }
                                    && f.tabs() == o.tabs() && !f.in_line_edit() && !f.in_multiline()
                            } else if k == 3 {
                                r == TabbedFieldAction::Continue && !f.in_line_edit() && !f.in_multiline()
                                    && tab_value_changed(o.tabs(), f.tabs(), t, toggled(o.selected_value()))
                            } else if k == 4 {
                                r == TabbedFieldAction::Continue && f.tabs() == o.tabs() && !f.in_line_edit() && f.in_multiline()
                            } else {
                                r == TabbedFieldAction::Continue && f.tabs() == o.tabs() && f.in_line_edit() && !f.in_multiline()
                                    && f.cursor() == o.selected_value().len()
                            }
                        },
                        KeyCode::Delete => r == TabbedFieldAction::Continue && f.tab() == o.tab()
                            && !f.in_line_edit() && !f.in_multiline() && if sec.color_preview_fields@.contains(sel)
                            && !sec.locked_fields@.contains(sel) {
                            tab_value_changed(o.tabs(), f.tabs(), t, Seq::empty())
                        } else {
                            f.tabs() == o.tabs()
                        },
                        KeyCode::Esc => r == TabbedFieldAction::Close && f.tabs() == o.tabs() && f.tab() == o.tab()
                            && !f.in_line_edit() && !f.in_multiline(),
                        _ => r == TabbedFieldAction::Continue && f.tabs() == o.tabs() && f.tab() == o.tab()
                            && !f.in_line_edit() && !f.in_multiline(),
                    }
                }
            }),
    {
        let t = self.current_tab;
        let sel = self.sections[t].selected;
        if self.editing {
            match key.code {
                KeyCode::Enter | KeyCode::Esc => {
                    if verdict.value_valid {
                        self.editing = false;
                    } else {
                        self.reject_flash = Some(instant_now());
                    }
                },
                _ => {
                    let mut v = self.sections[t].values[sel].clone();
                    let mut c = self.cursor_pos;
                    edit_line(&mut v, &mut c, key.code, verdict.char_accepted);
                    self.set_selected_value(v);
                    self.cursor_pos = c;
                    let refused = match key.code {
                        KeyCode::Char(_) => !verdict.char_accepted,
                        _ => false,
                    };
                    if refused {
                        self.reject_flash = Some(instant_now());
                    }
                },
            }
            return TabbedFieldAction::Continue;
        }
        let n = self.sections.len();
        match key.code {
            KeyCode::Tab => {
                assert(((t + 1) as int) % (n as int) < n as int) by (nonlinear_arith)
                    requires
                        n > 0,
                ;
                let next = (t + 1) % n;
                assert(next < n);
                self.current_tab = next;
                TabbedFieldAction::Continue
            },
            KeyCode::BackTab => {
                self.current_tab = if t == 0 {
                    n - 1
                } else {
                    t - 1
                };
                TabbedFieldAction::Continue
            },
            KeyCode::Char(c) => {
                if c == '\t' && key.modifiers.shift {
                    self.current_tab = if t == 0 {
                        n - 1
                    } else {
                        t - 1
                    };
                }
                TabbedFieldAction::Continue
            },
            KeyCode::Up => {
                let none: Vec<usize> = Vec::new();
                let s = move_up(sel, &self.sections[t].separator_fields, &none);
                assert(self.sections@[t as int].separator_fields@ + none@ =~= self.sections@[t as int].separator_fields@);
                proof { lemma_field_above_bound(sel as nat, self.sections@[t as int].separator_fields@); }
                self.set_selected(s);
                TabbedFieldAction::Continue
            },
            KeyCode::Down => {
                let none: Vec<usize> = Vec::new();
                let len = self.sections[t].labels.len();
                let s = move_down(sel, len, &self.sections[t].separator_fields, &none);
                assert(self.sections@[t as int].separator_fields@ + none@ =~= self.sections@[t as int].separator_fields@);
                proof { lemma_field_below_bound(sel as nat, len as nat, self.sections@[t as int].separator_fields@); }
                self.set_selected(s);
                TabbedFieldAction::Continue
            },
            KeyCode::Enter => {
                let s = &self.sections[t];
                if index_in(&s.locked_fields, sel) {
                    TabbedFieldAction::Continue
                } else if index_in(&s.action_fields, sel) {
                    TabbedFieldAction::InvokeAction { section: t, field: sel }
                } else if index_in(&s.selector_fields, sel) {
                    TabbedFieldAction::OpenSelector { section: t, field: sel }
                } else if index_in(&s.boolean_fields, sel) {
                    let v = toggle_value(&s.values[sel]);
                    proof {
                        reveal_strlit("true");
                        reveal_strlit("false");
                    }
                    let ghost vv = v@;
                    self.set_selected_value(v);
                    proof {
                        lemma_value_change_keeps_sections(old(self).tabs(), self.tabs(), t as int, vv);
                    }
                    TabbedFieldAction::Continue
                } else if index_in(&s.multiline_fields, sel) {
                    self.multiline_open = true;
                    TabbedFieldAction::Continue
                } else {
                    self.cursor_pos = char_count(s.values[sel].as_str());
                    self.editing = true;
                    TabbedFieldAction::Continue
                }
            },
            KeyCode::Delete => {
                let s = &self.sections[t];
                if index_in(&s.color_preview_fields, sel) && !index_in(&s.locked_fields, sel) {
                    self.set_selected_value(String::new());
                    proof {
                        lemma_value_change_keeps_sections(old(self).tabs(), self.tabs(), t as int, Seq::empty());
                    }
                }
                TabbedFieldAction::Continue
            },
            KeyCode::Esc => TabbedFieldAction::Close,
            _ => TabbedFieldAction::Continue,
        }
    }
}

proof fn lemma_field_above_bound(sel: nat, skip: Seq<usize>)
    ensures
        field_above(sel, skip) <= sel,
    decreases sel,
{
    if sel > 0 {
        lemma_field_above_bound((sel - 1) as nat, skip);
    }
}

proof fn lemma_field_below_bound(sel: nat, len: nat, skip: Seq<usize>)
    requires
        sel < len,
    ensures
        sel <= field_below(sel, len, skip) < len,
    decreases len - sel,
{
    if sel + 1 < len {
        lemma_field_below_bound(sel + 1, len, skip);
    }
}


proof fn lemma_value_change_keeps_sections(o: Seq<TabSection>, n: Seq<TabSection>, t: int, v: Seq<char>)
    requires
        0 <= t < o.len(),
        forall|i: int| 0 <= i < o.len() ==> (#[trigger] o[i]).well_formed(),
        tab_value_changed(o, n, t, v),
        v.len() < usize::MAX,
    ensures
        forall|i: int| 0 <= i < n.len() ==> (#[trigger] n[i]).well_formed(),
{
    assert forall|i: int| 0 <= i < n.len() implies (#[trigger] n[i]).well_formed() by {
        if i == t {
            let a = o[t];
            let b = n[t];
            assert(a.well_formed());
            assert forall|k: int| 0 <= k < b.values@.len() implies #[trigger] b.values@[k]@.len() < usize::MAX by {
                if k != a.selected {
                    assert(b.values@[k] == a.values@[k]);
                }
            }
        } else {
            assert(n[i] == o[i]);
        }
    }
}


// ---------------------------------------------------------------------
// The single-list dialog
// ---------------------------------------------------------------------

/// What a key press in a field dialog asks for.
#[derive(Debug, Clone, Copy, PartialEq, Eq, Structural)]
pub enum FieldDialogAction {
    Continue,
    Close,
    OpenSelector(usize),
}

/// A dialog editing a list of labelled fields.
pub struct FieldDialog {
    title: &'static str,
    labels: Vec<&'static str>,
    values: Vec<String>,
    original_values: Vec<String>,
    selected: usize,
    editing: bool,
    cursor_pos: usize,
    multiline_fields: Vec<usize>,
    multiline_open: bool,
    placeholder: Option<(&'static str, Vec<usize>)>,
    boolean_fields: Vec<usize>,
    hidden_fields: Vec<usize>,
    locked_fields: Vec<usize>,
    validated_fields: Vec<(usize, FieldValidation)>,
    separator_fields: Vec<usize>,
    selector_fields: Vec<usize>,
    reject_flash: Option<std::time::Instant>,
    clipboard_warning: Option<String>,
}

/// The rule for field `index`: the first one listed for it.
pub open spec fn rule_for(rules: Seq<(usize, FieldValidation)>, index: usize) -> Option<FieldValidation>
    decreases rules.len(),
{
    if rules.len() == 0 {
        None
    } else if rules[0].0 == index {
        Some(rules[0].1)
    } else {
        rule_for(rules.drop_first(), index)
    }
}

/// What a key does to a field dialog `o` (giving `f` and the action `r`) while no
/// multi-line text area is open; `char_accepted` says whether a typed character is
/// taken.
pub open spec fn field_key_effect(o: FieldDialog, f: FieldDialog, key: KeyEvent, char_accepted: bool, r: FieldDialogAction) -> bool {
        let sel = o.sel();
        let cur = o.vals()[sel as int]@;
        let skip = o.hidden() + o.separators();
        if o.in_line_edit() {
            &&& r == FieldDialogAction::Continue
            &&& !f.in_multiline()
            &&& f.sel() == sel
            &&& if key.code == KeyCode::Enter || key.code == KeyCode::Esc {
                f.vals() == o.vals() && !f.in_line_edit() && f.flash_set() == o.flash_set()
            } else {
                let (v, c) = line_edit(cur, o.cursor(), key.code, char_accepted);
                &&& f.in_line_edit()
                &&& strings_set_at(o.vals(), f.vals(), sel as int, v)
                &&& f.cursor() == c
                &&& ((key.code is Char && !char_accepted) ==> f.flash_set())
                &&& (!(key.code is Char && !char_accepted) ==> f.flash_set() == o.flash_set())
            }
        } else {
            &&& f.flash_set() == o.flash_set()
            &&& match key.code {
                KeyCode::Up => r == FieldDialogAction::Continue && f.vals() == o.vals()
                    && !f.in_line_edit() && !f.in_multiline()
                    && f.sel() == field_above(sel as nat, skip),
                KeyCode::Down => r == FieldDialogAction::Continue && f.vals() == o.vals()
                    && !f.in_line_edit() && !f.in_multiline()
                    && f.sel() == field_below(sel as nat, o.label_count(), skip),
                KeyCode::Enter => f.sel() == sel && if o.locked().contains(sel) {
                    r == FieldDialogAction::Continue && f.vals() == o.vals() && !f.in_line_edit() && !f.in_multiline()
                } else if o.selectors().contains(sel) {
                    r == FieldDialogAction::OpenSelector(sel) && f.vals() == o.vals() && !f.in_line_edit() && !f.in_multiline()
                } else if o.booleans().contains(sel) {
                    r == FieldDialogAction::Continue && !f.in_line_edit() && !f.in_multiline()
                        && strings_set_at(o.vals(), f.vals(), sel as int, toggled(cur))
                } else if o.multilines().contains(sel) {
                    r == FieldDialogAction::Continue && f.vals() == o.vals() && !f.in_line_edit() && f.in_multiline()
                } else {
                    r == FieldDialogAction::Continue && f.vals() == o.vals() && f.in_line_edit() && !f.in_multiline()
                        && f.cursor() == cur.len()
                },
                KeyCode::Esc => r == FieldDialogAction::Close && f.vals() == o.vals() && f.sel() == sel
                    && !f.in_line_edit() && !f.in_multiline(),
                _ => r == FieldDialogAction::Continue && f.vals() == o.vals() && f.sel() == sel
                    && !f.in_line_edit() && !f.in_multiline(),
            }
        }
}

impl FieldDialog {
    pub closed spec fn rules(self) -> Seq<(usize, FieldValidation)> {
        self.validated_fields@
    }

    pub closed spec fn dialog_title(self) -> &'static str {
        self.title
    }

    pub closed spec fn label_seq(self) -> Seq<&'static str> {
        self.labels@
    }

    pub closed spec fn placeholder_spec(self) -> Option<(&'static str, Seq<usize>)> {
        match self.placeholder {
            Some((t, f)) => Some((t, f@)),
            None => None,
        }
    }

    pub closed spec fn label_count(self) -> nat {
        self.labels@.len()
    }

    pub closed spec fn vals(self) -> Seq<String> {
        self.values@
    }

    pub closed spec fn originals(self) -> Seq<String> {
        self.original_values@
    }

    pub closed spec fn sel(self) -> usize {
        self.selected
    }

    pub closed spec fn in_line_edit(self) -> bool {
        self.editing
    }

    pub closed spec fn cursor(self) -> usize {
        self.cursor_pos
    }

    pub closed spec fn in_multiline(self) -> bool {
        self.multiline_open
    }

    pub closed spec fn flash_set(self) -> bool {
        self.reject_flash is Some
    }

    pub closed spec fn hidden(self) -> Seq<usize> {
        self.hidden_fields@
    }

    pub closed spec fn separators(self) -> Seq<usize> {
        self.separator_fields@
    }

    pub closed spec fn locked(self) -> Seq<usize> {
        self.locked_fields@
    }

    pub closed spec fn selectors(self) -> Seq<usize> {
        self.selector_fields@
    }

    pub closed spec fn booleans(self) -> Seq<usize> {
        self.boolean_fields@
    }

    pub closed spec fn multilines(self) -> Seq<usize> {
        self.multiline_fields@
    }

    /// Values line up with labels, the selection lies on a field, and an edit's cursor
    /// lies within the value.
    pub open spec fn well_formed(self) -> bool {
        &&& self.label_count() > 0
        &&& self.vals().len() == self.label_count()
        &&& self.sel() < self.label_count()
        &&& forall|i: int| 0 <= i < self.vals().len() ==> #[trigger] self.vals()[i]@.len() < usize::MAX
        &&& self.in_line_edit() ==> cursor_ok(self.vals()[self.sel() as int]@, self.cursor())
    }

    /// The kinds of field and the other settings are those of `other`.
    pub open spec fn same_layout(self, other: Self) -> bool {
        &&& other.label_count() == self.label_count()
        &&& other.originals() == self.originals()
        &&& other.hidden() == self.hidden()
        &&& other.separators() == self.separators()
        &&& other.locked() == self.locked()
        &&& other.selectors() == self.selectors()
        &&& other.booleans() == self.booleans()
        &&& other.multilines() == self.multilines()
    }

    /// A dialog with the given fields and values, first field selected, not editing.
    pub fn new(
        title: &'static str,
        labels: Vec<&'static str>,
        values: Vec<String>,
        multiline_fields: Vec<usize>,
    ) -> (d: Self)
        ensures
            d.label_count() == labels@.len(),
            d.label_seq() == labels@,
            d.dialog_title() == title,
            d.placeholder_spec() is None,
            d.rules().len() == 0,
            d.vals() == values@,
            string_views(d.originals()) == string_views(values@),
            d.sel() == 0,
            !d.in_line_edit(),
            !d.in_multiline(),
            !d.flash_set(),
            d.multilines() == multiline_fields@,
            d.hidden().len() == 0 && d.separators().len() == 0 && d.locked().len() == 0,
            d.selectors().len() == 0 && d.booleans().len() == 0,
    {
        let original_values = copy_strings(&values);
        FieldDialog {
            title,
            labels,
            values,
            original_values,
            selected: 0,
            editing: false,
            cursor_pos: 0,
            multiline_fields,
            multiline_open: false,
            placeholder: None,
            boolean_fields: Vec::new(),
            hidden_fields: Vec::new(),
            locked_fields: Vec::new(),
            validated_fields: Vec::new(),
            separator_fields: Vec::new(),
            selector_fields: Vec::new(),
            reject_flash: None,
            clipboard_warning: None,
        }
    }

    /// Sets the placeholder shown in the given empty fields.
    pub fn with_placeholder(self, text: &'static str, fields: Vec<usize>) -> (d: Self)
        ensures
            d.label_seq() == self.label_seq() && d.dialog_title() == self.dialog_title(),
            d.rules() == self.rules(),
            d.placeholder_spec() == Some((text, fields@)),
            self.same_layout(d),
            d.vals() == self.vals() && d.sel() == self.sel(),
            d.in_line_edit() == self.in_line_edit() && d.in_multiline() == self.in_multiline(),
    {
        FieldDialog { placeholder: Some((text, fields)), ..self }
    }

    /// Makes the given fields yes/no fields.
    pub fn with_boolean_fields(self, fields: Vec<usize>) -> (d: Self)
        ensures
            d.label_seq() == self.label_seq() && d.dialog_title() == self.dialog_title(),
            d.rules() == self.rules(),
            d.placeholder_spec() == self.placeholder_spec(),
            d.booleans() == fields@,
            d.label_count() == self.label_count() && d.originals() == self.originals(),
            d.hidden() == self.hidden() && d.separators() == self.separators(),
            d.locked() == self.locked() && d.selectors() == self.selectors(),
            d.multilines() == self.multilines(),
            d.vals() == self.vals() && d.sel() == self.sel(),
            d.in_line_edit() == self.in_line_edit() && d.in_multiline() == self.in_multiline(),
    {
        FieldDialog { boolean_fields: fields, ..self }
    }

    /// Locks the given fields (set on the command line).
    pub fn with_locked_fields(self, fields: Vec<usize>) -> (d: Self)
        ensures
            d.label_seq() == self.label_seq() && d.dialog_title() == self.dialog_title(),
            d.rules() == self.rules(),
            d.placeholder_spec() == self.placeholder_spec(),
            d.locked() == fields@,
            d.label_count() == self.label_count() && d.originals() == self.originals(),
            d.hidden() == self.hidden() && d.separators() == self.separators(),
            d.booleans() == self.booleans() && d.selectors() == self.selectors(),
            d.multilines() == self.multilines(),
            d.vals() == self.vals() && d.sel() == self.sel(),
            d.in_line_edit() == self.in_line_edit() && d.in_multiline() == self.in_multiline(),
    {
        FieldDialog { locked_fields: fields, ..self }
    }

    /// Gives fields rules for what may be typed into them.
    pub fn with_validated_fields(self, fields: Vec<(usize, FieldValidation)>) -> (d: Self)
        ensures
            d.label_seq() == self.label_seq() && d.dialog_title() == self.dialog_title(),
            d.placeholder_spec() == self.placeholder_spec(),
            self.same_layout(d),
            d.rules() == fields@,
            d.vals() == self.vals() && d.sel() == self.sel(),
            d.in_line_edit() == self.in_line_edit() && d.in_multiline() == self.in_multiline(),
    {
        FieldDialog { validated_fields: fields, ..self }
    }

    /// Makes the given fields separators (never selected).
    pub fn with_separator_fields(self, fields: Vec<usize>) -> (d: Self)
        ensures
            d.label_seq() == self.label_seq() && d.dialog_title() == self.dialog_title(),
            d.rules() == self.rules(),
            d.placeholder_spec() == self.placeholder_spec(),
            d.separators() == fields@,
            d.label_count() == self.label_count() && d.originals() == self.originals(),
            d.hidden() == self.hidden() && d.locked() == self.locked(),
            d.booleans() == self.booleans() && d.selectors() == self.selectors(),
            d.multilines() == self.multilines(),
            d.vals() == self.vals() && d.sel() == self.sel(),
            d.in_line_edit() == self.in_line_edit() && d.in_multiline() == self.in_multiline(),
    {
        FieldDialog { separator_fields: fields, ..self }
    }

    /// Makes the given fields open a picker on Enter.
    pub fn with_selector_fields(self, fields: Vec<usize>) -> (d: Self)
        ensures
            d.label_seq() == self.label_seq() && d.dialog_title() == self.dialog_title(),
            d.rules() == self.rules(),
            d.placeholder_spec() == self.placeholder_spec(),
            d.selectors() == fields@,
            d.label_count() == self.label_count() && d.originals() == self.originals(),
            d.hidden() == self.hidden() && d.locked() == self.locked(),
            d.booleans() == self.booleans() && d.separators() == self.separators(),
            d.multilines() == self.multilines(),
            d.vals() == self.vals() && d.sel() == self.sel(),
            d.in_line_edit() == self.in_line_edit() && d.in_multiline() == self.in_multiline(),
    {
        FieldDialog { selector_fields: fields, ..self }
    }

    /// Hides the given fields.
    pub fn set_hidden_fields(&mut self, fields: Vec<usize>)
        ensures
            final(self).label_seq() == old(self).label_seq() && final(self).dialog_title() == old(self).dialog_title(),
            final(self).rules() == old(self).rules() && final(self).placeholder_spec() == old(self).placeholder_spec(),
            final(self).hidden() == fields@,
            final(self).label_count() == old(self).label_count(),
            final(self).originals() == old(self).originals(),
            final(self).locked() == old(self).locked(),
            final(self).separators() == old(self).separators(),
            final(self).booleans() == old(self).booleans(),
            final(self).selectors() == old(self).selectors(),
            final(self).multilines() == old(self).multilines(),
            final(self).vals() == old(self).vals(),
            final(self).sel() == old(self).sel(),
            final(self).in_line_edit() == old(self).in_line_edit(),
            final(self).cursor() == old(self).cursor(),
            final(self).in_multiline() == old(self).in_multiline(),
    {
        self.hidden_fields = fields;
    }

    pub fn title(&self) -> (t: &'static str)
        ensures
            t == self.dialog_title(),
    {
        self.title
    }

    pub fn labels(&self) -> (l: &[&'static str])
        ensures
            l@.len() == self.label_count(),
            l@ == self.label_seq(),
    {
        self.labels.as_slice()
    }

    pub fn values(&self) -> (v: &Vec<String>)
        ensures
            v@ == self.vals(),
    {
        &self.values
    }

    pub fn selected(&self) -> (s: usize)
        ensures
            s == self.sel(),
    {
        self.selected
    }

    /// Whether the selected field is open in the multi-line text area.
    pub fn multiline_open(&self) -> (b: bool)
        ensures
            b == self.in_multiline(),
    {
        self.multiline_open
    }

    pub fn reject_flash(&self) -> (r: Option<std::time::Instant>)
        ensures
            r is Some == self.flash_set(),
    {
        self.reject_flash
    }

    pub fn clipboard_warning(&self) -> &Option<String> {
        &self.clipboard_warning
    }

    pub fn set_clipboard_warning(&mut self, w: Option<String>)
        ensures
            old(self).same_layout(*final(self)),
            final(self).vals() == old(self).vals(),
            final(self).sel() == old(self).sel(),
            final(self).in_line_edit() == old(self).in_line_edit(),
            final(self).cursor() == old(self).cursor(),
            final(self).in_multiline() == old(self).in_multiline(),
            final(self).flash_set() == old(self).flash_set(),
    {
        self.clipboard_warning = w;
    }

    /// Whether any value differs from the value the dialog was opened with.
    pub fn has_changes(&self) -> (b: bool)
        ensures
            b == (string_views(self.vals()) != string_views(self.originals())),
    {
        !strings_equal(&self.values, &self.original_values)
    }

    /// Whether Enter on field `index` opens a picker.
    pub fn is_selector(&self, index: usize) -> (b: bool)
        ensures
            b == self.selectors().contains(index),
    {
        index_in(&self.selector_fields, index)
    }

    fn set_value(&mut self, v: String)
        requires
            old(self).well_formed(),
        ensures
            old(self).same_layout(*final(self)),
            strings_set_at(old(self).vals(), final(self).vals(), old(self).sel() as int, v@),
            final(self).sel() == old(self).sel(),
            final(self).in_line_edit() == old(self).in_line_edit(),
            final(self).cursor() == old(self).cursor(),
            final(self).in_multiline() == old(self).in_multiline(),
            final(self).flash_set() == old(self).flash_set(),
    {
        let sel = self.selected;
        set_string_at(&mut self.values, sel, v);
    }

    /// Closes the multi-line text area, storing its text in the selected field.
    pub fn close_multiline_editor(&mut self, content: String)
        requires
            old(self).well_formed(),
        ensures
            !final(self).in_multiline(),
            old(self).same_layout(*final(self)),
            strings_set_at(old(self).vals(), final(self).vals(), old(self).sel() as int, content@),
            final(self).sel() == old(self).sel(),
            final(self).in_line_edit() == old(self).in_line_edit(),
            final(self).cursor() == old(self).cursor(),
            final(self).flash_set() == old(self).flash_set(),
    {
        self.set_value(content);
        self.multiline_open = false;
    }

    /// Handles a key while no multi-line text area is open. While a field is being
    /// edited, Enter and Esc end the edit and the editing keys edit it (a typed
    /// character only when the caller accepts it); otherwise Up and Down move between
    /// the visible fields, Enter acts on the selected field by its kind and Esc closes
    /// the dialog.
    pub fn handle_key_accepting(&mut self, key: KeyEvent, char_accepted: bool) -> (r: FieldDialogAction)
        requires
            old(self).well_formed(),
            !old(self).in_multiline(),
        ensures
            old(self).same_layout(*final(self)),
            field_key_effect(*old(self), *final(self), key, char_accepted, r),
            final(self).well_formed() || (final(self).in_line_edit()
                && final(self).vals()[final(self).sel() as int]@.len() == usize::MAX),
    {
        let sel = self.selected;
        if self.editing {
            match key.code {
                KeyCode::Enter | KeyCode::Esc => {
                    self.editing = false;
                },
                _ => {
                    let mut v = self.values[sel].clone();
                    let mut c = self.cursor_pos;
                    edit_line(&mut v, &mut c, key.code, char_accepted);
                    self.set_value(v);
                    self.cursor_pos = c;
                    let refused = match key.code {
                        KeyCode::Char(_) => !char_accepted,
                        _ => false,
                    };
                    if refused {
                        self.reject_flash = Some(instant_now());
                    }
                },
            }
            return FieldDialogAction::Continue;
        }
        match key.code {
            KeyCode::Up => {
                let s = move_up(sel, &self.hidden_fields, &self.separator_fields);
                proof {
                    lemma_field_above_bound(sel as nat, self.hidden_fields@ + self.separator_fields@);
                }
                self.selected = s;
                FieldDialogAction::Continue
            },
            KeyCode::Down => {
                let s = move_down(sel, self.labels.len(), &self.hidden_fields, &self.separator_fields);
                proof {
                    lemma_field_below_bound(sel as nat, self.labels@.len(), self.hidden_fields@ + self.separator_fields@);
                }
                self.selected = s;
                FieldDialogAction::Continue
            },
            KeyCode::Enter => {
                if index_in(&self.locked_fields, sel) {
                    FieldDialogAction::Continue
                } else if index_in(&self.selector_fields, sel) {
                    FieldDialogAction::OpenSelector(sel)
                } else if index_in(&self.boolean_fields, sel) {
                    let v = toggle_value(&self.values[sel]);
                    proof {
                        reveal_strlit("true");
                        reveal_strlit("false");
                    }
                    self.set_value(v);
                    proof {
                        assert forall|i: int| 0 <= i < self.vals().len() implies #[trigger] self.vals()[i]@.len() < usize::MAX by {
                            if i != sel {
                                assert(self.vals()[i] == old(self).vals()[i]);
                            }
                        }
                    }
                    FieldDialogAction::Continue
                } else if index_in(&self.multiline_fields, sel) {
                    self.multiline_open = true;
                    FieldDialogAction::Continue
                } else {
                    self.cursor_pos = char_count(self.values[sel].as_str());
                    self.editing = true;
                    FieldDialogAction::Continue
                }
            },
            KeyCode::Esc => FieldDialogAction::Close,
            _ => FieldDialogAction::Continue,
        }
    }
}

/// Whether `key` is taken by dialog `d` as a typed character: while a field is being
/// edited, a character passes the field's rule (if it has one).
pub open spec fn key_accepted(d: FieldDialog, key: KeyEvent) -> bool {
    match key.code {
        KeyCode::Char(c) => match rule_for(d.rules(), d.sel()) {
            Some(v) => accepts(v, d.vals()[d.sel() as int]@, c),
            None => true,
        },
        _ => true,
    }
}

impl FieldDialog {
    /// The rule of field `index`, if it has one.
    pub fn validation_for(&self, index: usize) -> (r: Option<FieldValidation>)
        ensures
            r == rule_for(self.rules(), index),
    {
        let mut i: usize = 0;
        assert(self.validated_fields@.skip(0) =~= self.validated_fields@);
        while i < self.validated_fields.len()
            invariant
                i <= self.validated_fields@.len(),
                rule_for(self.validated_fields@, index) == rule_for(self.validated_fields@.skip(i as int), index),
            decreases self.validated_fields.len() - i,
        {
            let ghost rest = self.validated_fields@.skip(i as int);
            assert(rest.drop_first() =~= self.validated_fields@.skip(i + 1));
            if self.validated_fields[i].0 == index {
                return Some(self.validated_fields[i].1);
            }
            i = i + 1;
        }
        assert(self.validated_fields@.skip(i as int).len() == 0);
        None
    }

    /// Handles a key while no multi-line text area is open (see `field_key_effect`),
    /// a typed character being taken when the field's rule accepts it.
    pub fn handle_key(&mut self, key: KeyEvent) -> (r: FieldDialogAction)
        requires
            old(self).well_formed(),
            !old(self).in_multiline(),
        ensures
            old(self).same_layout(*final(self)),
            field_key_effect(*old(self), *final(self), key, key_accepted(*old(self), key), r),
            final(self).well_formed() || (final(self).in_line_edit()
                && final(self).vals()[final(self).sel() as int]@.len() == usize::MAX),
    {
        let accepted = match key.code {
            KeyCode::Char(c) => match self.validation_for(self.selected) {
                Some(v) => v.accepts_char(self.values[self.selected].as_str(), c),
                None => true,
            },
            _ => true,
        };
        self.handle_key_accepting(key, accepted)
    }
}

fn copy_strings(v: &Vec<String>) -> (r: Vec<String>)
    ensures
        string_views(r@) == string_views(v@),
{
    let mut r: Vec<String> = Vec::new();
    let mut i: usize = 0;
    while i < v.len()
        invariant
            i <= v.len(),
            r@.len() == i,
            forall|k: int| 0 <= k < i ==> #[trigger] r@[k]@ == v@[k]@,
        decreases v.len() - i,
    {
        r.push(v[i].clone());
        i = i + 1;
    }
    assert(string_views(r@) =~= string_views(v@));
    r
}


// ---------------------------------------------------------------------
// Mouse clicks on the tabbed dialog
// ---------------------------------------------------------------------

/// The most fields any section has.
pub open spec fn tallest(s: Seq<TabSection>) -> nat
    decreases s.len(),
{
    if s.len() == 0 {
        0
    } else {
        let rest = tallest(s.drop_last());
        let l = s.last().labels@.len();
        if l > rest {
            l
        } else {
            rest
        }
    }
}

/// Width of the tabbed dialog (without a text area open).
pub const TABBED_DIALOG_WIDTH: u16 = 78;

/// The tab under column `click` of the tab bar, the tab at `i` starting at column
/// `cursor`: each tab label is its title plus four cells, with one cell between tabs.
pub open spec fn tab_hit_from(s: Seq<TabSection>, i: int, cursor: int, click: int) -> Option<int>
    decreases s.len() - i,
{
    if i < 0 || i >= s.len() {
        None
    } else {
        let w = crate::text::utf8_len(s[i].title@) + 4;
        if cursor <= click < cursor + w {
            Some(i)
        } else {
            tab_hit_from(s, i + 1, cursor + w + 1, click)
        }
    }
}

fn utf8_len_exec(s: &str) -> (n: u128)
    ensures
        n == crate::text::utf8_len(s@),
        n <= 4 * (usize::MAX as int),
{
    let v = chars_of(s);
    let mut acc: u128 = 0;
    let mut i: usize = 0;
    while i < v.len()
        invariant
            i <= v.len(),
            acc == crate::text::utf8_len(v@.take(i as int)),
            acc <= 4 * i,
            v.len() <= usize::MAX,
        decreases v.len() - i,
    {
        assert(v@.take(i + 1).drop_last() =~= v@.take(i as int));
        let w = crate::text::utf8_width_exec(v[i]);
        assert(4 * i + 4 <= u128::MAX) by (nonlinear_arith)
            requires
                i < v.len(),
                v.len() <= usize::MAX,
                usize::MAX <= u64::MAX,
        ;
        acc = acc + w as u128;
        i = i + 1;
    }
    assert(v@.take(i as int) =~= v@);
    assert(4 * i <= 4 * (usize::MAX as int));
    acc
}

impl TabbedFieldDialog {
    /// Width and height of the dialog while no text area is open: the height fits the
    /// tallest section and six rows of frame.
    pub fn dialog_dimensions(&self) -> (r: (u16, u16))
        requires
            tallest(self.tabs()) + 6 <= u16::MAX,
        ensures
            r == (TABBED_DIALOG_WIDTH, (tallest(self.tabs()) + 6) as u16),
    {
        let mut t: usize = 0;
        let mut i: usize = 0;
        proof {
            lemma_tallest_prefix(self.sections@);
        }
        while i < self.sections.len()
            invariant
                i <= self.sections@.len(),
                t == tallest(self.sections@.take(i as int)),
                tallest(self.sections@) + 6 <= u16::MAX,
                forall|j: int| 0 <= j <= self.sections@.len() ==> tallest(#[trigger] self.sections@.take(j)) <= tallest(self.sections@),
            decreases self.sections.len() - i,
        {
            assert(self.sections@.take(i + 1).drop_last() =~= self.sections@.take(i as int));
            let l = self.sections[i].labels.len();
            if l > t {
                t = l;
            }
            i = i + 1;
        }
        assert(self.sections@.take(i as int) =~= self.sections@);
        (TABBED_DIALOG_WIDTH, (t + 6) as u16)
    }

    fn hit_test_tab_bar(&self, start_col: u32, click_col: u16) -> (r: Option<usize>)
        ensures
            match tab_hit_from(self.tabs(), 0, start_col as int, click_col as int) {
                Some(i) => r == Some(i as usize),
                None => r is None,
            },
    {
        let mut cursor: u128 = start_col as u128;
        let mut i: usize = 0;
        while i < self.sections.len()
            invariant
                i <= self.sections@.len(),
                tab_hit_from(self.tabs(), 0, start_col as int, click_col as int) == tab_hit_from(
                    self.tabs(),
                    i as int,
                    cursor as int,
                    click_col as int,
                ),
                cursor <= click_col as int + 1 || cursor == start_col,
            decreases self.sections.len() - i,
        {
            let w = utf8_len_exec(self.sections[i].title) + 4;
            if (click_col as u128) >= cursor && (click_col as u128) < cursor + w {
                return Some(i);
            }
            if (click_col as u128) < cursor + w {
                proof {
                    lemma_tab_hit_none_before(self.tabs(), i as int + 1, cursor + w + 1, click_col as int);
                }
                return None;
            }
            cursor = cursor + w + 1;
            i = i + 1;
        }
        None
    }

    /// Handles a left click at `(screen_col, screen_row)` while no text area is open:
    /// outside the dialog it does nothing and returns `false`; while a field is being
    /// edited it only swallows the click; on the tab bar it switches to the tab under
    /// the click; on a field row (not a separator) it selects that field.
    pub fn handle_mouse_click(&mut self, terminal_area: Rect, screen_col: u16, screen_row: u16) -> (handled: bool)
        requires
            old(self).well_formed(),
            !old(self).in_multiline(),
            terminal_area.fits(),
            tallest(old(self).tabs()) + 6 <= u16::MAX,
        ensures
            final(self).well_formed(),
            old(self).rest_same(*final(self)),
            final(self).in_line_edit() == old(self).in_line_edit(),
            final(self).in_multiline() == old(self).in_multiline(),
            final(self).cursor() == old(self).cursor(),
            final(self).flash_set() == old(self).flash_set(),
            ({
                let dialog = centered_spec(TABBED_DIALOG_WIDTH, (tallest(old(self).tabs()) + 6) as u16, terminal_area);
                let inside = dialog.x <= screen_col < dialog.x + dialog.width && dialog.y <= screen_row < dialog.y + dialog.height;
                let o = *old(self);
                let f = *final(self);
                &&& handled == inside
                &&& if !inside || o.in_line_edit() {
                    f.tabs() == o.tabs() && f.tab() == o.tab()
                } else if screen_row == dialog.y + 2 {
                    f.tabs() == o.tabs() && f.tab() == (match tab_hit_from(o.tabs(), 0, dialog.x + 2, screen_col as int) {
                        Some(t) => t as usize,
                        None => o.tab(),
                    })
                } else if screen_row >= dialog.y + 4 && screen_row - (dialog.y + 4) < o.section().labels@.len()
                    && !o.section().separator_fields@.contains((screen_row - (dialog.y + 4)) as usize) {
                    f.tab() == o.tab() && tab_selection_changed(o.tabs(), f.tabs(), o.tab() as int, (screen_row - (dialog.y + 4)) as usize)
                } else {
                    f.tabs() == o.tabs() && f.tab() == o.tab()
                }
            }),
    {
        let (w, h) = self.dialog_dimensions();
        let dialog = centered_rect(w, h, terminal_area);
        let inside = dialog.x <= screen_col && (screen_col as u32) < dialog.x as u32 + dialog.width as u32
            && dialog.y <= screen_row && (screen_row as u32) < dialog.y as u32 + dialog.height as u32;
        if !inside {
            return false;
        }
        if self.editing {
            return true;
        }
        if screen_row as u32 == dialog.y as u32 + 2 {
            match self.hit_test_tab_bar(dialog.x as u32 + 2, screen_col) {
                Some(t) => {
                    proof {
                        lemma_tab_hit_bound(self.tabs(), 0, (dialog.x + 2) as int, screen_col as int);
                    }
                    self.current_tab = t;
                },
                None => {},
            }
            return true;
        }
        if screen_row as u32 >= dialog.y as u32 + 4 {
            let r = (screen_row - (dialog.y + 4)) as usize;
            let tab = self.current_tab;
            if r < self.sections[tab].labels.len() && !index_in(&self.sections[tab].separator_fields, r) {
                self.set_selected(r);
            }
        }
        true
    }
}

proof fn lemma_tab_hit_none_before(s: Seq<TabSection>, i: int, cursor: int, click: int)
    requires
        click < cursor,
        0 <= i,
    ensures
        tab_hit_from(s, i, cursor, click) is None,
    decreases s.len() - i,
{
    if i < s.len() {
        lemma_tab_hit_none_before(s, i + 1, cursor + crate::text::utf8_len(s[i].title@) + 4 + 1, click);
    }
}

proof fn lemma_tab_hit_bound(s: Seq<TabSection>, i: int, cursor: int, click: int)
    requires
        0 <= i,
    ensures
        tab_hit_from(s, i, cursor, click) matches Some(t) ==> i <= t < s.len(),
    decreases s.len() - i,
{
    if i < s.len() {
        lemma_tab_hit_bound(s, i + 1, cursor + crate::text::utf8_len(s[i].title@) + 4 + 1, click);
    }
}


proof fn lemma_tallest_prefix(s: Seq<TabSection>)
    ensures
        forall|j: int| 0 <= j <= s.len() ==> tallest(#[trigger] s.take(j)) <= tallest(s),
    decreases s.len(),
{
    if s.len() > 0 {
        lemma_tallest_prefix(s.drop_last());
        assert forall|j: int| 0 <= j <= s.len() implies tallest(#[trigger] s.take(j)) <= tallest(s) by {
            if j == s.len() {
                assert(s.take(j) =~= s);
            } else {
                assert(s.take(j) =~= s.drop_last().take(j));
            }
        }
    }
}

} // verus!
