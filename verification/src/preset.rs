//! Presets (template, instruct, reasoning): the picker's rules, the names under which
//! presets are stored, and what an edited preset's form gives.

use vstd::prelude::*;
use crate::keys::{KeyCode, KeyEvent};
use crate::text::{chars_of, string_of, trim, trim_chars, string_views};
use crate::worldbook::{keys_of, parse_keys};

verus! {

/// The three kinds of preset.
#[derive(Debug, Clone, Copy, PartialEq, Eq, Structural)]
pub enum PresetKind {
    Template,
    Instruct,
    Reasoning,
}

/// The picker's title for a kind.
pub fn picker_title(kind: PresetKind) -> (t: &'static str)
    ensures
        t == (match kind {
            PresetKind::Template => " Select Template Preset ",
            PresetKind::Instruct => " Select Instruct Preset ",
            PresetKind::Reasoning => " Select Reasoning Preset ",
        }),
{
    match kind {
        PresetKind::Template => " Select Template Preset ",
        PresetKind::Instruct => " Select Instruct Preset ",
        PresetKind::Reasoning => " Select Reasoning Preset ",
    }
}

/// The field of the config's first tab that a chosen preset of `kind` fills.
pub fn config_field_for(kind: PresetKind) -> (i: usize)
    ensures
        i == (match kind { PresetKind::Template => 2usize, PresetKind::Instruct => 3usize, PresetKind::Reasoning => 4usize }),
{
    match kind {
        PresetKind::Template => 2,
        PresetKind::Instruct => 3,
        PresetKind::Reasoning => 4,
    }
}

/// The stem of the name new presets of a kind get.
pub fn new_name_base(kind: PresetKind) -> (b: &'static str)
    ensures
        b == (match kind { PresetKind::Template => "template", PresetKind::Instruct => "instruct", PresetKind::Reasoning => "reasoning" }),
{
    match kind {
        PresetKind::Template => "template",
        PresetKind::Instruct => "instruct",
        PresetKind::Reasoning => "reasoning",
    }
}

/// `name` with every `/` and `\` replaced by `_`.
pub open spec fn no_separators(name: Seq<char>) -> Seq<char> {
    Seq::new(name.len(), |i: int| if name[i] == '/' || name[i] == '\\' { '_' } else { name[i] })
}

/// Index of the first character that is not a dot.
pub open spec fn lead_dots(s: Seq<char>) -> int
    decreases s.len(),
{
    if s.len() > 0 && s[0] == '.' { 1 + lead_dots(s.drop_first()) } else { 0 }
}

/// Index just past the last character (at or after `lo`) that is not a dot.
pub open spec fn trail_dots(s: Seq<char>, lo: int, hi: int) -> int
    decreases hi - lo,
{
    if lo < hi && hi <= s.len() && s[hi - 1] == '.' { trail_dots(s, lo, hi - 1) } else { hi }
}

/// `s` without leading and trailing dots (`trim_matches('.')`).
pub open spec fn strip_dots(s: Seq<char>) -> Seq<char> {
    let lo = lead_dots(s);
    s.subrange(lo, trail_dots(s, lo, s.len() as int))
}

/// The name a preset is stored under: path separators become `_`, and leading and
/// trailing dots go; `None` when nothing is left.
pub open spec fn safe_name(raw: Seq<char>) -> Option<Seq<char>> {
    let s = strip_dots(no_separators(raw));
    if s.len() == 0 { None } else { Some(s) }
}

proof fn lemma_lead_dots(s: Seq<char>)
    ensures
        0 <= lead_dots(s) <= s.len(),
        forall|k: int| 0 <= k < lead_dots(s) ==> s[k] == '.',
        lead_dots(s) < s.len() ==> s[lead_dots(s)] != '.',
    decreases s.len(),
{
    if s.len() > 0 && s[0] == '.' {
        lemma_lead_dots(s.drop_first());
        assert forall|k: int| 0 <= k < lead_dots(s) implies s[k] == '.' by {
            if k > 0 { assert(s[k] == s.drop_first()[k - 1]); }
        }
    }
}

proof fn lemma_trail_dots(s: Seq<char>, lo: int, hi: int)
    requires
        0 <= lo <= hi <= s.len(),
    ensures
        lo <= trail_dots(s, lo, hi) <= hi,
        forall|k: int| trail_dots(s, lo, hi) <= k < hi ==> s[k] == '.',
        trail_dots(s, lo, hi) > lo ==> s[trail_dots(s, lo, hi) - 1] != '.',
    decreases hi - lo,
{
    if lo < hi && s[hi - 1] == '.' {
        lemma_trail_dots(s, lo, hi - 1);
    }
}

/// The name a preset is stored under.
pub fn sanitize_preset_name(raw: &str) -> (r: Option<String>)
    ensures
        match (r, safe_name(raw@)) {
            (Some(s), Some(t)) => s@ == t,
            (None, None) => true,
            _ => false,
        },
{
    let v = chars_of(raw);
    let mut w: Vec<char> = Vec::new();
    let mut i: usize = 0;
    while i < v.len()
        invariant
            i <= v@.len(),
            w@ == no_separators(v@).take(i as int),
        decreases v.len() - i,
    {
        let c = v[i];
        w.push(if c == '/' || c == '\\' { '_' } else { c });
        assert(w@ =~= no_separators(v@).take(i + 1));
        i = i + 1;
    }
    assert(w@ =~= no_separators(v@));
    let ghost n = w@;
    proof { lemma_lead_dots(n); }
    let mut lo: usize = 0;
    while lo < w.len() && w[lo] == '.'
        invariant
            lo <= w@.len(),
            n == w@,
            forall|k: int| 0 <= k < lo ==> n[k] == '.',
            0 <= lead_dots(n) <= n.len(),
            forall|k: int| 0 <= k < lead_dots(n) ==> n[k] == '.',
            lead_dots(n) < n.len() ==> n[lead_dots(n)] != '.',
        decreases w.len() - lo,
    {
        lo = lo + 1;
    }
    proof {
        if lo < lead_dots(n) { assert(n[lo as int] == '.'); }
        if lo > lead_dots(n) { assert(n[lead_dots(n)] == '.'); }
        lemma_trail_dots(n, lo as int, n.len() as int);
    }
    let mut hi: usize = w.len();
    while hi > lo && w[hi - 1] == '.'
        invariant
            lo <= hi <= w@.len(),
            n == w@,
            lo == lead_dots(n),
            trail_dots(n, lo as int, n.len() as int) == trail_dots(n, lo as int, hi as int),
        decreases hi,
    {
        hi = hi - 1;
    }
    if hi == lo {
        return None;
    }
    let out = crate::text::sub_chars(w.as_slice(), lo, hi);
    Some(string_of(out.as_slice()))
}

/// Why an edited preset cannot be saved.
#[derive(Debug, Clone, Copy, PartialEq, Eq, Structural)]
pub enum PresetNameError {
    /// Nothing is left of the name.
    Empty,
    /// `OFF` (in any case) means "no preset".
    Reserved,
}

/// Whether `s` reads `OFF`, ignoring ASCII case.
pub open spec fn reads_off(s: Seq<char>) -> bool {
    &&& s.len() == 3
    &&& (s[0] == 'o' || s[0] == 'O')
    &&& (s[1] == 'f' || s[1] == 'F')
    &&& (s[2] == 'f' || s[2] == 'F')
}

/// The name an edited preset is saved under: its trimmed first field, made safe;
/// refused when nothing is left or it reads `OFF`.
pub fn preset_save_name(first_field: &str) -> (r: Result<String, PresetNameError>)
    ensures
        match safe_name(trim(first_field@)) {
            None => r == Err::<String, PresetNameError>(PresetNameError::Empty),
            Some(n) => if reads_off(n) {
                r == Err::<String, PresetNameError>(PresetNameError::Reserved)
            } else {
                r matches Ok(s) && s@ == n
            },
        },
{
    let v = chars_of(first_field);
    let t = trim_chars(v.as_slice());
    let ts = string_of(t.as_slice());
    match sanitize_preset_name(ts.as_str()) {
        None => Err(PresetNameError::Empty),
        Some(name) => {
            let c = chars_of(name.as_str());
            if c.len() == 3 && (c[0] == 'o' || c[0] == 'O') && (c[1] == 'f' || c[1] == 'F') && (c[2] == 'f' || c[2] == 'F') {
                Err(PresetNameError::Reserved)
            } else {
                Ok(name)
            }
        },
    }
}

/// The stored name that an edited preset leaves behind (to be removed) when it was
/// saved under a new name: the old name made safe, when there was one and it differs
/// from the new.
pub fn stale_preset_name(original: &str, saved: &str) -> (r: Option<String>)
    ensures
        r matches Some(s) ==> original@.len() > 0 && original@ != saved@ && safe_name(original@) == Some(s@) && s@ != saved@,
        r is None ==> original@.len() == 0 || original@ == saved@ || safe_name(original@) is None
            || safe_name(original@) == Some(saved@),
{
    let a = String::from_str(original);
    let b = String::from_str(saved);
    if crate::text::char_count(original) == 0 || a == b {
        return None;
    }
    match sanitize_preset_name(original) {
        Some(s) => if s == b { None } else { Some(s) },
        None => None,
    }
}

/// `bool`'s `FromStr`, defaulting to `false`.
pub fn parse_flag(s: &str) -> (b: bool)
    ensures
        b == (s@ == "true"@),
{
    String::from_str(s) == String::from_str("true")
}

/// The stop sequences written in the instruct editor: comma-separated, trimmed,
/// blanks dropped.
pub fn stop_sequences(field: &str) -> (r: Vec<String>)
    ensures
        string_views(r@) == keys_of(field@),
{
    parse_keys(field)
}

/// What a key in the preset picker asks for.
#[derive(Debug, Clone, Copy, PartialEq, Eq, Structural)]
pub enum PresetPickerAction {
    Continue,
    /// Use preset `i` and return to the config editor.
    Choose(usize),
    /// Edit preset `i`.
    Edit(usize),
    /// Create a new preset and edit it.
    Create,
    /// Ask whether to delete preset `i`.
    ConfirmDelete(usize),
    /// Return to the config editor.
    Back,
    /// A movement key, for the list.
    Paged,
}

/// The built-in presets `OFF` and `Raw` are neither edited nor deleted.
pub open spec fn is_builtin(name: Seq<char>) -> bool {
    name == "OFF"@ || name == "Raw"@
}

fn builtin_name(name: &String) -> (b: bool)
    ensures
        b == is_builtin(name@),
{
    *name == String::from_str("OFF") || *name == String::from_str("Raw")
}

/// Handles a key in the preset picker over `names` with `selected` the selection.
pub fn handle_preset_dialog_key(names: &Vec<String>, selected: usize, key: KeyEvent) -> (r: PresetPickerAction)
    requires
        names@.len() > 0 ==> selected < names@.len(),
    ensures
        names@.len() == 0 ==> r == (match key.code {
            KeyCode::Char('a') => PresetPickerAction::Create,
            KeyCode::Esc => PresetPickerAction::Back,
            _ => PresetPickerAction::Continue,
        }),
        names@.len() > 0 ==> r == (match key.code {
            KeyCode::Up | KeyCode::Down | KeyCode::PageUp | KeyCode::PageDown | KeyCode::Home | KeyCode::End => PresetPickerAction::Paged,
            KeyCode::Enter => PresetPickerAction::Choose(selected),
            KeyCode::Right => if is_builtin(names@[selected as int]@) { PresetPickerAction::Continue } else { PresetPickerAction::Edit(selected) },
            KeyCode::Char('a') => PresetPickerAction::Create,
            KeyCode::Backspace | KeyCode::Delete => if is_builtin(names@[selected as int]@) {
                PresetPickerAction::Continue
            } else {
                PresetPickerAction::ConfirmDelete(selected)
            },
            KeyCode::Esc => PresetPickerAction::Back,
            _ => PresetPickerAction::Continue,
        }),
{
    if names.len() == 0 {
        return match key.code {
            KeyCode::Char('a') => PresetPickerAction::Create,
            KeyCode::Esc => PresetPickerAction::Back,
            _ => PresetPickerAction::Continue,
        };
    }
    match key.code {
        KeyCode::Up | KeyCode::Down | KeyCode::PageUp | KeyCode::PageDown | KeyCode::Home | KeyCode::End => PresetPickerAction::Paged,
        KeyCode::Enter => PresetPickerAction::Choose(selected),
        KeyCode::Right => if builtin_name(&names[selected]) { PresetPickerAction::Continue } else { PresetPickerAction::Edit(selected) },
        KeyCode::Char('a') => PresetPickerAction::Create,
        KeyCode::Backspace | KeyCode::Delete => if builtin_name(&names[selected]) {
            PresetPickerAction::Continue
        } else {
            PresetPickerAction::ConfirmDelete(selected)
        },
        KeyCode::Esc => PresetPickerAction::Back,
        _ => PresetPickerAction::Continue,
    }
}

/// Equal ignoring ASCII case.
pub open spec fn ascii_eq_ignore_case(a: Seq<char>, b: Seq<char>) -> bool {
    a.len() == b.len() && forall|i: int| 0 <= i < a.len() ==> #[trigger] ascii_fold(a[i]) == ascii_fold(b[i])
}

/// ASCII upper-case letters as lower case; other characters unchanged.
pub open spec fn ascii_fold(c: char) -> int {
    if 'A' <= c <= 'Z' { c as int + 32 } else { c as int }
}

fn fold(c: char) -> (r: u32)
    ensures
        r == ascii_fold(c),
{
    if 'A' <= c && c <= 'Z' { (c as u32) + 32 } else { c as u32 }
}

fn eq_ignore_case(a: &str, b: &str) -> (r: bool)
    ensures
        r == ascii_eq_ignore_case(a@, b@),
{
    let x = chars_of(a);
    let y = chars_of(b);
    if x.len() != y.len() {
        return false;
    }
    let mut i: usize = 0;
    while i < x.len()
        invariant
            i <= x@.len(),
            x@ == a@,
            y@ == b@,
            x@.len() == y@.len(),
            forall|k: int| 0 <= k < i ==> #[trigger] ascii_fold(x@[k]) == ascii_fold(y@[k]),
        decreases x.len() - i,
    {
        if fold(x[i]) != fold(y[i]) {
            assert(ascii_fold(x@[i as int]) != ascii_fold(y@[i as int]));
            return false;
        }
        i = i + 1;
    }
    true
}

/// Where the picker opens: on the preset the config editor names (ignoring ASCII
/// case), else on the first.
pub fn picker_start(names: &Vec<String>, current: &str) -> (r: usize)
    ensures
        (exists|i: int| 0 <= i < names@.len() && ascii_eq_ignore_case(#[trigger] names@[i]@, current@)) ==> {
            &&& r < names@.len()
            &&& ascii_eq_ignore_case(names@[r as int]@, current@)
            &&& forall|k: int| 0 <= k < r ==> !ascii_eq_ignore_case(#[trigger] names@[k]@, current@)
        },
        !(exists|i: int| 0 <= i < names@.len() && ascii_eq_ignore_case(#[trigger] names@[i]@, current@)) ==> r == 0,
{
    let mut i: usize = 0;
    while i < names.len()
        invariant
            i <= names@.len(),
            forall|k: int| 0 <= k < i ==> !ascii_eq_ignore_case(#[trigger] names@[k]@, current@),
        decreases names.len() - i,
    {
        if eq_ignore_case(names[i].as_str(), current) {
            return i;
        }
        i = i + 1;
    }
    0
}

/// The selection after the list was reloaded with `len` presets: kept, but not past
/// the last.
pub fn selection_after_refresh(selected: usize, len: usize) -> (r: usize)
    ensures
        r == (if len == 0 { 0 } else if selected < len { selected as int } else { len - 1 }),
{
    if len == 0 { 0 } else if selected < len { selected } else { len - 1 }
}

/// The form values of a new preset named `name`: empty fields, the instruct
/// preset's three yes/no fields `false`.
pub fn new_preset_values(kind: PresetKind, name: String) -> (v: Vec<String>)
    ensures
        v@.len() == (match kind { PresetKind::Instruct => 12int, _ => 4int }),
        v@[0]@ == name@,
        forall|i: int| 1 <= i < v@.len() ==> #[trigger] v@[i]@ == (if kind == PresetKind::Instruct && i >= 9 { "false"@ } else { Seq::<char>::empty() }),
{
    let mut v: Vec<String> = Vec::new();
    v.push(name);
    let n: usize = match kind { PresetKind::Instruct => 12, _ => 4 };
    let mut i: usize = 1;
    while i < n
        invariant
            1 <= i <= n,
            n == (match kind { PresetKind::Instruct => 12usize, _ => 4usize }),
            v@.len() == i,
            v@[0]@ == name@,
            forall|k: int| 1 <= k < i ==> #[trigger] v@[k]@ == (if kind == PresetKind::Instruct && k >= 9 { "false"@ } else { Seq::<char>::empty() }),
        decreases n - i,
    {
        if kind == PresetKind::Instruct && i >= 9 {
            v.push(String::from_str("false"));
        } else {
            v.push(String::new());
        }
        i = i + 1;
    }
    v
}

/// A stored name holds no path separator and does not start with a dot, so the
/// preset's file stays in the presets directory.
pub proof fn law_safe_names_stay_in_directory(raw: Seq<char>)
    requires
        safe_name(raw) is Some,
    ensures
        ({
            let n = safe_name(raw)->0;
            &&& forall|i: int| 0 <= i < n.len() ==> #[trigger] n[i] != '/' && n[i] != '\\'
            &&& n[0] != '.'
            &&& n.last() != '.'
        }),
{
    let s = no_separators(raw);
    lemma_lead_dots(s);
    let lo = lead_dots(s);
    lemma_trail_dots(s, lo, s.len() as int);
    let n = safe_name(raw)->0;
    assert forall|i: int| 0 <= i < n.len() implies #[trigger] n[i] != '/' && n[i] != '\\' by {
        assert(n[i] == s[lo + i]);
    }
}

} // verus!
