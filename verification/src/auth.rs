//! The authentication sub-dialog of `/config`: the rows each kind of authentication
//! has, editing their values (secret ones masked), fields locked by the command line,
//! and the kind picker.

use vstd::prelude::*;
use crate::business::{AuthKind, CliOverrides};
use crate::keys::{KeyCode, KeyEvent};
use crate::fields::{line_edit, cursor_ok};
use crate::text::{char_count, insert_char_at, remove_char_at, clamp_pos};

verus! {

/// How requests authenticate, with the values each kind needs.
#[derive(Debug, Clone, PartialEq, Eq)]
pub enum Auth {
    NoAuth,
    Basic { username: String, password: String },
    Bearer { token: String },
    Header { name: String, value: String },
    Query { name: String, value: String },
}

/// The kind of an authentication.
pub open spec fn auth_kind(a: Auth) -> AuthKind {
    match a {
        Auth::NoAuth => AuthKind::NoAuth,
        Auth::Basic { .. } => AuthKind::Basic,
        Auth::Bearer { .. } => AuthKind::Bearer,
        Auth::Header { .. } => AuthKind::Header,
        Auth::Query { .. } => AuthKind::Query,
    }
}

/// A row of the dialog: the kind, or one value of it.
#[derive(Debug, Clone, Copy, PartialEq, Eq, Structural)]
pub enum FieldSlot {
    Type,
    BasicUsername,
    BasicPassword,
    BearerToken,
    HeaderName,
    HeaderValue,
    QueryName,
    QueryValue,
}

pub open spec fn is_secret_spec(s: FieldSlot) -> bool {
    s == FieldSlot::BasicPassword || s == FieldSlot::BearerToken || s == FieldSlot::HeaderValue
        || s == FieldSlot::QueryValue
}

impl FieldSlot {
    /// Whether the value is masked on screen: passwords, tokens and header and query
    /// values.
    pub fn is_secret(self) -> (b: bool)
        ensures
            b == is_secret_spec(self),
    {
        match self {
            FieldSlot::BasicPassword | FieldSlot::BearerToken | FieldSlot::HeaderValue
            | FieldSlot::QueryValue => true,
            _ => false,
        }
    }
}

/// Which rows the command line locks.
#[derive(Debug, Clone, Copy, PartialEq, Eq, Structural)]
pub struct LocksBySlot {
    pub auth_type: bool,
    pub basic_username: bool,
    pub basic_password: bool,
    pub bearer_token: bool,
    pub header_name: bool,
    pub header_value: bool,
    pub query_name: bool,
    pub query_value: bool,
}

pub open spec fn locked_spec(l: LocksBySlot, s: FieldSlot) -> bool {
    match s {
        FieldSlot::Type => l.auth_type,
        FieldSlot::BasicUsername => l.basic_username,
        FieldSlot::BasicPassword => l.basic_password,
        FieldSlot::BearerToken => l.bearer_token,
        FieldSlot::HeaderName => l.header_name,
        FieldSlot::HeaderValue => l.header_value,
        FieldSlot::QueryName => l.query_name,
        FieldSlot::QueryValue => l.query_value,
    }
}

impl LocksBySlot {
    /// Each row is locked when the command line sets the matching value.
    pub fn from_overrides(o: &CliOverrides) -> (l: Self)
        ensures
            l.auth_type == o.auth_type is Some,
            l.basic_username == o.auth_basic_username is Some,
            l.basic_password == o.auth_basic_password is Some,
            l.bearer_token == o.auth_bearer_token is Some,
            l.header_name == o.auth_header_name is Some,
            l.header_value == o.auth_header_value is Some,
            l.query_name == o.auth_query_name is Some,
            l.query_value == o.auth_query_value is Some,
    {
        LocksBySlot {
            auth_type: o.auth_type.is_some(),
            basic_username: o.auth_basic_username.is_some(),
            basic_password: o.auth_basic_password.is_some(),
            bearer_token: o.auth_bearer_token.is_some(),
            header_name: o.auth_header_name.is_some(),
            header_value: o.auth_header_value.is_some(),
            query_name: o.auth_query_name.is_some(),
            query_value: o.auth_query_value.is_some(),
        }
    }

    pub fn is_locked(&self, slot: FieldSlot) -> (b: bool)
        ensures
            b == locked_spec(*self, slot),
    {
        match slot {
            FieldSlot::Type => self.auth_type,
            FieldSlot::BasicUsername => self.basic_username,
            FieldSlot::BasicPassword => self.basic_password,
            FieldSlot::BearerToken => self.bearer_token,
            FieldSlot::HeaderName => self.header_name,
            FieldSlot::HeaderValue => self.header_value,
            FieldSlot::QueryName => self.query_name,
            FieldSlot::QueryValue => self.query_value,
        }
    }
}

/// The rows of each kind: the kind itself, then its values.
pub open spec fn slots_for(kind: AuthKind) -> Seq<FieldSlot> {
    match kind {
        AuthKind::NoAuth => seq![FieldSlot::Type],
        AuthKind::Basic => seq![FieldSlot::Type, FieldSlot::BasicUsername, FieldSlot::BasicPassword],
        AuthKind::Bearer => seq![FieldSlot::Type, FieldSlot::BearerToken],
        AuthKind::Header => seq![FieldSlot::Type, FieldSlot::HeaderName, FieldSlot::HeaderValue],
        AuthKind::Query => seq![FieldSlot::Type, FieldSlot::QueryName, FieldSlot::QueryValue],
    }
}

/// The labels of the rows of each kind.
pub open spec fn labels_for(kind: AuthKind) -> Seq<&'static str> {
    match kind {
        AuthKind::NoAuth => seq!["Type"],
        AuthKind::Basic => seq!["Type", "Username", "Password"],
        AuthKind::Bearer => seq!["Type", "Token"],
        AuthKind::Header => seq!["Type", "Name", "Value"],
        AuthKind::Query => seq!["Type", "Name", "Value"],
    }
}

/// The labels and slots of the rows of `kind`.
pub fn rows_for(kind: AuthKind) -> (r: (Vec<&'static str>, Vec<FieldSlot>))
    ensures
        r.0@ == labels_for(kind),
        r.1@ == slots_for(kind),
{
    match kind {
        AuthKind::NoAuth => (vec!["Type"], vec![FieldSlot::Type]),
        AuthKind::Basic => (
            vec!["Type", "Username", "Password"],
            vec![FieldSlot::Type, FieldSlot::BasicUsername, FieldSlot::BasicPassword],
        ),
        AuthKind::Bearer => (vec!["Type", "Token"], vec![FieldSlot::Type, FieldSlot::BearerToken]),
        AuthKind::Header => (
            vec!["Type", "Name", "Value"],
            vec![FieldSlot::Type, FieldSlot::HeaderName, FieldSlot::HeaderValue],
        ),
        AuthKind::Query => (
            vec!["Type", "Name", "Value"],
            vec![FieldSlot::Type, FieldSlot::QueryName, FieldSlot::QueryValue],
        ),
    }
}

/// The name of each kind.
pub open spec fn kind_label(kind: AuthKind) -> &'static str {
    match kind {
        AuthKind::NoAuth => "None",
        AuthKind::Basic => "Basic",
        AuthKind::Bearer => "Bearer",
        AuthKind::Header => "Header",
        AuthKind::Query => "Query",
    }
}

/// The name of a kind, as shown and in the picker.
pub fn auth_kind_label(kind: AuthKind) -> (l: &'static str)
    ensures
        l == kind_label(kind),
{
    match kind {
        AuthKind::NoAuth => "None",
        AuthKind::Basic => "Basic",
        AuthKind::Bearer => "Bearer",
        AuthKind::Header => "Header",
        AuthKind::Query => "Query",
    }
}

/// The kinds in the order the picker lists them.
pub open spec fn picker_options() -> Seq<AuthKind> {
    seq![AuthKind::NoAuth, AuthKind::Basic, AuthKind::Bearer, AuthKind::Header, AuthKind::Query]
}

/// The values typed for every kind, kept while the kind is switched back and forth.
#[derive(Debug, Clone)]
pub struct AuthScratchpad {
    pub basic_username: String,
    pub basic_password: String,
    pub bearer_token: String,
    pub header_name: String,
    pub header_value: String,
    pub query_name: String,
    pub query_value: String,
}

/// The value a slot holds in the scratchpad (`None` for the kind row).
pub open spec fn slot_text(p: AuthScratchpad, s: FieldSlot) -> Option<Seq<char>> {
    match s {
        FieldSlot::Type => None,
        FieldSlot::BasicUsername => Some(p.basic_username@),
        FieldSlot::BasicPassword => Some(p.basic_password@),
        FieldSlot::BearerToken => Some(p.bearer_token@),
        FieldSlot::HeaderName => Some(p.header_name@),
        FieldSlot::HeaderValue => Some(p.header_value@),
        FieldSlot::QueryName => Some(p.query_name@),
        FieldSlot::QueryValue => Some(p.query_value@),
    }
}

/// `b` equals `a` but for slot `s`, which holds `v`.
pub open spec fn scratch_set(a: AuthScratchpad, b: AuthScratchpad, s: FieldSlot, v: Seq<char>) -> bool {
    &&& slot_text(b, s) == Some(v)
    &&& forall|t: FieldSlot| t != s ==> #[trigger] slot_text(b, t) == slot_text(a, t)
}

impl AuthScratchpad {
    /// The values of `auth` in their slots; the other slots empty.
    pub fn from_auth(auth: &Auth) -> (p: Self)
        ensures
            match *auth {
                Auth::NoAuth => forall|t: FieldSlot| t != FieldSlot::Type ==> #[trigger] slot_text(p, t) == Some(Seq::<char>::empty()),
                Auth::Basic { username, password } => p.basic_username@ == username@ && p.basic_password@ == password@
                    && p.bearer_token@.len() == 0 && p.header_name@.len() == 0 && p.header_value@.len() == 0
                    && p.query_name@.len() == 0 && p.query_value@.len() == 0,
                Auth::Bearer { token } => p.bearer_token@ == token@ && p.basic_username@.len() == 0
                    && p.basic_password@.len() == 0 && p.header_name@.len() == 0 && p.header_value@.len() == 0
                    && p.query_name@.len() == 0 && p.query_value@.len() == 0,
                Auth::Header { name, value } => p.header_name@ == name@ && p.header_value@ == value@
                    && p.basic_username@.len() == 0 && p.basic_password@.len() == 0 && p.bearer_token@.len() == 0
                    && p.query_name@.len() == 0 && p.query_value@.len() == 0,
                Auth::Query { name, value } => p.query_name@ == name@ && p.query_value@ == value@
                    && p.basic_username@.len() == 0 && p.basic_password@.len() == 0 && p.bearer_token@.len() == 0
                    && p.header_name@.len() == 0 && p.header_value@.len() == 0,
            },
    {
        let mut p = AuthScratchpad {
            basic_username: String::new(),
            basic_password: String::new(),
            bearer_token: String::new(),
            header_name: String::new(),
            header_value: String::new(),
            query_name: String::new(),
            query_value: String::new(),
        };
        match auth {
            Auth::NoAuth => {},
            Auth::Basic { username, password } => {
                p.basic_username = username.clone();
                p.basic_password = password.clone();
            },
            Auth::Bearer { token } => {
                p.bearer_token = token.clone();
            },
            Auth::Header { name, value } => {
                p.header_name = name.clone();
                p.header_value = value.clone();
            },
            Auth::Query { name, value } => {
                p.query_name = name.clone();
                p.query_value = value.clone();
            },
        }
        p
    }

    fn get(&self, slot: FieldSlot) -> (r: Option<&String>)
        ensures
            match slot_text(*self, slot) {
                Some(v) => r matches Some(s) && s@ == v,
                None => r is None,
            },
    {
        match slot {
            FieldSlot::Type => None,
            FieldSlot::BasicUsername => Some(&self.basic_username),
            FieldSlot::BasicPassword => Some(&self.basic_password),
            FieldSlot::BearerToken => Some(&self.bearer_token),
            FieldSlot::HeaderName => Some(&self.header_name),
            FieldSlot::HeaderValue => Some(&self.header_value),
            FieldSlot::QueryName => Some(&self.query_name),
            FieldSlot::QueryValue => Some(&self.query_value),
        }
    }

    fn set(&mut self, slot: FieldSlot, v: String)
        requires
            slot != FieldSlot::Type,
        ensures
            scratch_set(*old(self), *final(self), slot, v@),
    {
        match slot {
            FieldSlot::Type => {},
            FieldSlot::BasicUsername => self.basic_username = v,
            FieldSlot::BasicPassword => self.basic_password = v,
            FieldSlot::BearerToken => self.bearer_token = v,
            FieldSlot::HeaderName => self.header_name = v,
            FieldSlot::HeaderValue => self.header_value = v,
            FieldSlot::QueryName => self.query_name = v,
            FieldSlot::QueryValue => self.query_value = v,
        }
    }
}


/// What a key in the dialog asks for.
#[derive(Debug, Clone, Copy, PartialEq, Eq, Structural)]
pub enum AuthDialogAction {
    Continue,
    /// Close the dialog (and save, when a value changed).
    Close,
    /// Open the kind picker.
    OpenTypePicker,
}

/// The authentication dialog.
#[derive(Debug)]
pub struct AuthDialogState {
    pub active_type: AuthKind,
    pub scratchpad: AuthScratchpad,
    pub labels: Vec<&'static str>,
    pub slots: Vec<FieldSlot>,
    pub selected: usize,
    pub editing: bool,
    pub cursor_pos: usize,
    /// For each row, whether the command line locks it.
    pub locked: Vec<bool>,
    pub value_changed: bool,
    pub type_picker_selected: usize,
}

/// The locks of the given rows, in order.
pub open spec fn locks_of(l: LocksBySlot, slots: Seq<FieldSlot>) -> Seq<bool> {
    Seq::new(slots.len(), |i: int| locked_spec(l, slots[i]))
}

fn locks_for(locks: &LocksBySlot, slots: &Vec<FieldSlot>) -> (r: Vec<bool>)
    ensures
        r@ == locks_of(*locks, slots@),
{
    let mut r: Vec<bool> = Vec::new();
    let mut i: usize = 0;
    while i < slots.len()
        invariant
            i <= slots.len(),
            r@ == locks_of(*locks, slots@).take(i as int),
        decreases slots.len() - i,
    {
        r.push(locks.is_locked(slots[i]));
        assert(r@ =~= locks_of(*locks, slots@).take(i + 1));
        i = i + 1;
    }
    assert(locks_of(*locks, slots@).take(i as int) =~= locks_of(*locks, slots@));
    r
}

impl AuthDialogState {
    /// The rows are those of the active kind, the selection lies on one, and while a
    /// value is edited the cursor lies within it.
    pub open spec fn well_formed(self) -> bool {
        &&& self.slots@ == slots_for(self.active_type)
        &&& self.labels@ == labels_for(self.active_type)
        &&& self.locked@.len() == self.slots@.len()
        &&& self.selected < self.slots@.len()
        &&& self.editing ==> self.slots@[self.selected as int] != FieldSlot::Type
            && cursor_ok(slot_text(self.scratchpad, self.slots@[self.selected as int])->0, self.cursor_pos)
    }

    /// The dialog on `auth`, first row selected.
    pub fn from_auth(auth: &Auth, locks: &LocksBySlot) -> (s: Self)
        ensures
            s.well_formed(),
            s.active_type == auth_kind(*auth),
            s.locked@ == locks_of(*locks, slots_for(auth_kind(*auth))),
            s.selected == 0,
            !s.editing,
            !s.value_changed,
            s.type_picker_selected == 0,
    {
        let active_type = match auth {
            Auth::NoAuth => AuthKind::NoAuth,
            Auth::Basic { .. } => AuthKind::Basic,
            Auth::Bearer { .. } => AuthKind::Bearer,
            Auth::Header { .. } => AuthKind::Header,
            Auth::Query { .. } => AuthKind::Query,
        };
        let (labels, slots) = rows_for(active_type);
        let locked = locks_for(locks, &slots);
        AuthDialogState {
            active_type,
            scratchpad: AuthScratchpad::from_auth(auth),
            labels,
            slots,
            selected: 0,
            editing: false,
            cursor_pos: 0,
            locked,
            value_changed: false,
            type_picker_selected: 0,
        }
    }

    /// Switches to kind `new_type`, keeping the typed values, first row selected.
    pub fn rebuild_for_type(&mut self, new_type: AuthKind, locks: &LocksBySlot)
        ensures
            final(self).well_formed(),
            final(self).active_type == new_type,
            final(self).slots@ == slots_for(new_type),
            final(self).locked@ == locks_of(*locks, slots_for(new_type)),
            final(self).selected == 0,
            !final(self).editing,
            final(self).cursor_pos == 0,
            final(self).scratchpad == old(self).scratchpad,
            final(self).value_changed == old(self).value_changed,
            final(self).type_picker_selected == old(self).type_picker_selected,
    {
        let (labels, slots) = rows_for(new_type);
        self.active_type = new_type;
        self.locked = locks_for(locks, &slots);
        self.labels = labels;
        self.slots = slots;
        self.selected = 0;
        self.editing = false;
        self.cursor_pos = 0;
    }

    /// The authentication the dialog's values describe.
    pub fn build_candidate_auth(&self) -> (a: Auth)
        ensures
            auth_kind(a) == self.active_type,
            match a {
                Auth::NoAuth => true,
                Auth::Basic { username, password } => username@ == self.scratchpad.basic_username@
                    && password@ == self.scratchpad.basic_password@,
                Auth::Bearer { token } => token@ == self.scratchpad.bearer_token@,
                Auth::Header { name, value } => name@ == self.scratchpad.header_name@
                    && value@ == self.scratchpad.header_value@,
                Auth::Query { name, value } => name@ == self.scratchpad.query_name@
                    && value@ == self.scratchpad.query_value@,
            },
    {
        match self.active_type {
            AuthKind::NoAuth => Auth::NoAuth,
            AuthKind::Basic => Auth::Basic {
                username: self.scratchpad.basic_username.clone(),
                password: self.scratchpad.basic_password.clone(),
            },
            AuthKind::Bearer => Auth::Bearer { token: self.scratchpad.bearer_token.clone() },
            AuthKind::Header => Auth::Header {
                name: self.scratchpad.header_name.clone(),
                value: self.scratchpad.header_value.clone(),
            },
            AuthKind::Query => Auth::Query {
                name: self.scratchpad.query_name.clone(),
                value: self.scratchpad.query_value.clone(),
            },
        }
    }

    /// What closing the dialog saves: nothing when no value changed, else the
    /// authentication its values describe (which the caller validates and saves).
    pub fn close_candidate(&self) -> (r: Option<Auth>)
        ensures
            r is None <==> !self.value_changed,
            r matches Some(a) ==> auth_kind(a) == self.active_type,
    {
        if self.value_changed {
            Some(self.build_candidate_auth())
        } else {
            None
        }
    }
}

/// The cursor and text after an editing key on the value at `slot`, and whether the
/// value changed.
pub open spec fn auth_edit(p: AuthScratchpad, slot: FieldSlot, cursor: usize, code: KeyCode) -> (Seq<char>, usize, bool) {
    let v = slot_text(p, slot)->0;
    let (nv, nc) = line_edit(v, cursor, code, true);
    let changed = match code {
        KeyCode::Char(_) => true,
        KeyCode::Backspace => cursor > 0,
        KeyCode::Delete => cursor < v.len(),
        _ => false,
    };
    (nv, nc, changed)
}

/// Handles a key in the dialog. While a value is edited, Enter and Esc end the edit
/// and the editing keys edit it; otherwise Up and Down move between rows, Enter edits
/// the selected value (or opens the kind picker on the kind row) unless the row is
/// locked, and Esc closes.
pub fn handle_auth_dialog_key(state: &mut AuthDialogState, key: KeyEvent) -> (r: AuthDialogAction)
    requires
        old(state).well_formed(),
    ensures
        final(state).well_formed() || (final(state).editing && slot_text(final(state).scratchpad, final(state).slots@[final(state).selected as int])->0.len() == usize::MAX),
        final(state).active_type == old(state).active_type,
        final(state).slots == old(state).slots,
        final(state).locked == old(state).locked,
        final(state).type_picker_selected == old(state).type_picker_selected,
        ({
            let o = *old(state);
            let f = *final(state);
            let slot = o.slots@[o.selected as int];
            if o.editing {
                &&& r == AuthDialogAction::Continue
                &&& f.selected == o.selected
                &&& if key.code == KeyCode::Enter || key.code == KeyCode::Esc {
                    !f.editing && f.scratchpad == o.scratchpad && f.cursor_pos == o.cursor_pos
                        && f.value_changed == o.value_changed
                } else {
                    let (nv, nc, changed) = auth_edit(o.scratchpad, slot, o.cursor_pos, key.code);
                    &&& f.editing
                    &&& scratch_set(o.scratchpad, f.scratchpad, slot, nv)
                    &&& f.cursor_pos == nc
                    &&& f.value_changed == (o.value_changed || changed)
                }
            } else {
                &&& f.value_changed == o.value_changed
                &&& f.scratchpad == o.scratchpad
                &&& match key.code {
                    KeyCode::Up => r == AuthDialogAction::Continue && !f.editing && f.selected == (if o.selected > 0 { (o.selected - 1) as usize } else { o.selected }),
                    KeyCode::Down => r == AuthDialogAction::Continue && !f.editing && f.selected == (if o.selected + 1 < o.labels@.len() { (o.selected + 1) as usize } else { o.selected }),
                    KeyCode::Enter => f.selected == o.selected && if o.locked@[o.selected as int] {
                        r == AuthDialogAction::Continue && !f.editing
                    } else if slot == FieldSlot::Type {
                        r == AuthDialogAction::OpenTypePicker && !f.editing
                    } else {
                        r == AuthDialogAction::Continue && f.editing && f.cursor_pos == (slot_text(o.scratchpad, slot)->0).len()
                    },
                    KeyCode::Esc => r == AuthDialogAction::Close && !f.editing && f.selected == o.selected,
                    _ => r == AuthDialogAction::Continue && !f.editing && f.selected == o.selected,
                }
            }
        }),
{
    let slot = state.slots[state.selected];
    if state.editing {
        match key.code {
            KeyCode::Enter | KeyCode::Esc => {
                state.editing = false;
            },
            _ => {
                let mut v = match state.scratchpad.get(slot) {
                    Some(s) => s.clone(),
                    None => String::new(),
                };
                let ghost before = v@;
                let mut c = state.cursor_pos;
                crate::fields::edit_line_pub(&mut v, &mut c, key.code, true);
                let changed = match key.code {
                    KeyCode::Char(_) => true,
                    KeyCode::Backspace => state.cursor_pos > 0,
                    KeyCode::Delete => state.cursor_pos < char_count(match state.scratchpad.get(slot) {
                        Some(s) => s.as_str(),
                        None => "",
                    }),
                    _ => false,
                };
                state.scratchpad.set(slot, v);
                state.cursor_pos = c;
                if changed {
                    state.value_changed = true;
                }
            },
        }
        return AuthDialogAction::Continue;
    }
    match key.code {
        KeyCode::Up => {
            if state.selected > 0 {
                state.selected = state.selected - 1;
            }
            AuthDialogAction::Continue
        },
        KeyCode::Down => {
            if state.selected < state.labels.len() - 1 {
                state.selected = state.selected + 1;
            }
            AuthDialogAction::Continue
        },
        KeyCode::Enter => {
            if state.locked[state.selected] {
                return AuthDialogAction::Continue;
            }
            if slot == FieldSlot::Type {
                AuthDialogAction::OpenTypePicker
            } else {
                let n = match state.scratchpad.get(slot) {
                    Some(s) => char_count(s.as_str()),
                    None => 0,
                };
                state.editing = true;
                state.cursor_pos = n;
                AuthDialogAction::Continue
            }
        },
        KeyCode::Esc => AuthDialogAction::Close,
        _ => AuthDialogAction::Continue,
    }
}


/// What a key in the kind picker asks for.
#[derive(Debug, Clone, Copy, PartialEq, Eq, Structural)]
pub enum TypePickerOutcome {
    /// Stay in the picker.
    Stay,
    /// Return to the dialog.
    Back,
}

fn picker_option(i: usize) -> (k: AuthKind)
    requires
        i < 5,
    ensures
        k == picker_options()[i as int],
{
    if i == 0 {
        AuthKind::NoAuth
    } else if i == 1 {
        AuthKind::Basic
    } else if i == 2 {
        AuthKind::Bearer
    } else if i == 3 {
        AuthKind::Header
    } else {
        AuthKind::Query
    }
}

impl AuthDialogState {
    /// Opens the kind picker on the active kind.
    pub fn open_type_picker(&mut self)
        ensures
            final(self).type_picker_selected < 5,
            picker_options()[final(self).type_picker_selected as int] == old(self).active_type,
            final(self).active_type == old(self).active_type,
            final(self).scratchpad == old(self).scratchpad,
            final(self).slots == old(self).slots,
            final(self).labels == old(self).labels,
            final(self).locked == old(self).locked,
            final(self).selected == old(self).selected,
            final(self).editing == old(self).editing,
            final(self).cursor_pos == old(self).cursor_pos,
            final(self).value_changed == old(self).value_changed,
    {
        self.type_picker_selected = match self.active_type {
            AuthKind::NoAuth => 0,
            AuthKind::Basic => 1,
            AuthKind::Bearer => 2,
            AuthKind::Header => 3,
            AuthKind::Query => 4,
        };
    }
}

/// Handles a key in the kind picker: Up and Down move within the five kinds; Enter
/// switches to the selected kind (unless the kind is locked, or already active) and
/// returns to the dialog, as Esc does.
pub fn handle_type_picker_key(state: &mut AuthDialogState, key: KeyEvent, locks: &LocksBySlot) -> (r: TypePickerOutcome)
    requires
        old(state).well_formed(),
        old(state).type_picker_selected < 5,
    ensures
        final(state).well_formed(),
        final(state).type_picker_selected < 5,
        final(state).scratchpad == old(state).scratchpad,
        ({
            let o = *old(state);
            let f = *final(state);
            let sel = o.type_picker_selected;
            let same = f.active_type == o.active_type && f.slots == o.slots && f.locked == o.locked
                && f.selected == o.selected && f.editing == o.editing && f.value_changed == o.value_changed;
            match key.code {
                KeyCode::Up => r == TypePickerOutcome::Stay && same && f.type_picker_selected == (if sel > 0 { (sel - 1) as usize } else { sel }),
                KeyCode::Down => r == TypePickerOutcome::Stay && same && f.type_picker_selected == (if sel + 1 < 5 { (sel + 1) as usize } else { sel }),
                KeyCode::Enter => r == TypePickerOutcome::Back && f.type_picker_selected == sel && if o.locked@[0]
                    || picker_options()[sel as int] == o.active_type {
                    same
                } else {
                    f.active_type == picker_options()[sel as int] && f.value_changed && f.selected == 0 && !f.editing
                        && f.locked@ == locks_of(*locks, slots_for(picker_options()[sel as int]))
                },
                KeyCode::Esc => r == TypePickerOutcome::Back && same && f.type_picker_selected == sel,
                _ => r == TypePickerOutcome::Stay && same && f.type_picker_selected == sel,
            }
        }),
{
    match key.code {
        KeyCode::Up => {
            if state.type_picker_selected > 0 {
                state.type_picker_selected = state.type_picker_selected - 1;
            }
            TypePickerOutcome::Stay
        },
        KeyCode::Down => {
            if state.type_picker_selected + 1 < 5 {
                state.type_picker_selected = state.type_picker_selected + 1;
            }
            TypePickerOutcome::Stay
        },
        KeyCode::Enter => {
            if state.locked[0] {
                return TypePickerOutcome::Back;
            }
            let chosen = picker_option(state.type_picker_selected);
            if chosen != state.active_type {
                state.rebuild_for_type(chosen, locks);
                state.value_changed = true;
            }
            TypePickerOutcome::Back
        },
        KeyCode::Esc => TypePickerOutcome::Back,
        _ => TypePickerOutcome::Stay,
    }
}

} // verus!
