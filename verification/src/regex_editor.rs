//! Regex find/replace rules: the list (reorder, toggle, delete) and the edit form.

use vstd::prelude::*;
use crate::keys::{KeyCode, KeyEvent};
use crate::text::{push_char, first_index, lemma_first_index, push_str, push_all, chars_of, string_of};

verus! {

/// Where a rule applies.
#[derive(Debug, Clone, Copy, PartialEq, Eq, Structural)]
pub enum Scope {
    Display,
    PromptSend,
    PromptRecv,
    Export,
}

/// Whose messages a rule applies to.
#[derive(Debug, Clone, Copy, PartialEq, Eq, Structural)]
pub enum Target {
    User,
    Assistant,
    System,
    Summary,
}

/// A find/replace rule.
#[derive(Debug, Clone)]
pub struct RegexRule {
    pub name: String,
    pub pattern: String,
    pub replacement: String,
    pub scope: Vec<Scope>,
    pub target: Vec<Target>,
    pub enabled: bool,
    /// Why the pattern does not compile, when it does not.
    pub pattern_error: Option<String>,
}

/// The field of the edit form that has focus.
#[derive(Debug, Clone, Copy, PartialEq, Eq, Structural)]
pub enum EditorField {
    Name,
    Pattern,
    Replacement,
    ScopeToggles,
    TargetToggles,
    Enabled,
    SampleInput,
}

/// The field after `f` in Tab order, wrapping around.
pub open spec fn next_field(f: EditorField) -> EditorField {
    match f {
        EditorField::Name => EditorField::Pattern,
        EditorField::Pattern => EditorField::Replacement,
        EditorField::Replacement => EditorField::ScopeToggles,
        EditorField::ScopeToggles => EditorField::TargetToggles,
        EditorField::TargetToggles => EditorField::Enabled,
        EditorField::Enabled => EditorField::SampleInput,
        EditorField::SampleInput => EditorField::Name,
    }
}

impl EditorField {
    /// The field after this one in Tab order, wrapping around.
    pub fn next(self) -> (r: Self)
        ensures
            r == next_field(self),
    {
        match self {
            EditorField::Name => EditorField::Pattern,
            EditorField::Pattern => EditorField::Replacement,
            EditorField::Replacement => EditorField::ScopeToggles,
            EditorField::ScopeToggles => EditorField::TargetToggles,
            EditorField::TargetToggles => EditorField::Enabled,
            EditorField::Enabled => EditorField::SampleInput,
            EditorField::SampleInput => EditorField::Name,
        }
    }
}

/// The edit form: the rule being edited (and where it came from), a sample text to
/// try it on, the focused field and an error to show.
#[derive(Debug, Clone)]
pub struct RegexEditorState {
    pub original_index: Option<usize>,
    pub draft: RegexRule,
    pub sample_input: String,
    pub field: EditorField,
    pub error: Option<String>,
}

// ---------------------------------------------------------------------
// Toggling scopes and targets
// ---------------------------------------------------------------------

/// Index of the first element of `order` that `have` lacks (`order.len()` when it has
/// them all).
pub open spec fn first_missing<T>(order: Seq<T>, have: Seq<T>) -> int
    decreases order.len(),
{
    if order.len() == 0 {
        0
    } else if !have.contains(order[0]) {
        0
    } else {
        1 + first_missing(order.drop_first(), have)
    }
}

/// One Space press on a toggle row: the first value of `order` that is off is turned
/// on (appended); when all are on, the first value of `order` is turned off.
pub open spec fn toggle_cycle<T>(order: Seq<T>, have: Seq<T>) -> Seq<T> {
    let m = first_missing(order, have);
    let next = if m < order.len() {
        order[m]
    } else {
        order[0]
    };
    if have.contains(next) {
        have.remove(first_index(have, next))
    } else {
        have.push(next)
    }
}

pub open spec fn scope_order() -> Seq<Scope> {
    seq![Scope::Display, Scope::PromptSend, Scope::PromptRecv, Scope::Export]
}

pub open spec fn target_order() -> Seq<Target> {
    seq![Target::User, Target::Assistant, Target::System, Target::Summary]
}

fn position_scope(v: &Vec<Scope>, x: Scope) -> (r: usize)
    ensures
        r == first_index(v@, x),
        r <= v@.len(),
{
    proof {
        lemma_first_index(v@, x);
    }
    let mut i: usize = 0;
    while i < v.len()
        invariant
            i <= v.len(),
            forall|k: int| 0 <= k < i ==> v@[k] != x,
            0 <= first_index(v@, x) <= v@.len(),
            first_index(v@, x) < v@.len() ==> v@[first_index(v@, x)] == x,
            forall|k: int| 0 <= k < first_index(v@, x) ==> v@[k] != x,
        decreases v.len() - i,
    {
        if v[i] == x {
            return i;
        }
        i = i + 1;
    }
    i
}

fn position_target(v: &Vec<Target>, x: Target) -> (r: usize)
    ensures
        r == first_index(v@, x),
        r <= v@.len(),
{
    proof {
        lemma_first_index(v@, x);
    }
    let mut i: usize = 0;
    while i < v.len()
        invariant
            i <= v.len(),
            forall|k: int| 0 <= k < i ==> v@[k] != x,
            0 <= first_index(v@, x) <= v@.len(),
            first_index(v@, x) < v@.len() ==> v@[first_index(v@, x)] == x,
            forall|k: int| 0 <= k < first_index(v@, x) ==> v@[k] != x,
        decreases v.len() - i,
    {
        if v[i] == x {
            return i;
        }
        i = i + 1;
    }
    i
}

/// Turns the next scope on or off (see `toggle_cycle`).
pub fn cycle_scope(ed: &mut RegexEditorState)
    ensures
        final(ed).draft.scope@ == toggle_cycle(scope_order(), old(ed).draft.scope@),
        final(ed).draft.target == old(ed).draft.target,
        final(ed).draft.name == old(ed).draft.name,
        final(ed).draft.pattern == old(ed).draft.pattern,
        final(ed).draft.replacement == old(ed).draft.replacement,
        final(ed).draft.enabled == old(ed).draft.enabled,
        final(ed).draft.pattern_error == old(ed).draft.pattern_error,
        final(ed).sample_input == old(ed).sample_input,
        final(ed).field == old(ed).field,
        final(ed).original_index == old(ed).original_index,
        final(ed).error == old(ed).error,
{
    let ghost have = ed.draft.scope@;
    let order: [Scope; 4] = [Scope::Display, Scope::PromptSend, Scope::PromptRecv, Scope::Export];
    assert(order@ =~= scope_order());
    let idx: usize = if position_scope(&ed.draft.scope, Scope::Display) == ed.draft.scope.len() {
        0
    } else if position_scope(&ed.draft.scope, Scope::PromptSend) == ed.draft.scope.len() {
        1
    } else if position_scope(&ed.draft.scope, Scope::PromptRecv) == ed.draft.scope.len() {
        2
    } else if position_scope(&ed.draft.scope, Scope::Export) == ed.draft.scope.len() {
        3
    } else {
        0
    };
    proof {
        lemma_first_index(have, Scope::Display);
        lemma_first_index(have, Scope::PromptSend);
        lemma_first_index(have, Scope::PromptRecv);
        lemma_first_index(have, Scope::Export);
        let o = scope_order();
        assert(o.drop_first() =~= seq![Scope::PromptSend, Scope::PromptRecv, Scope::Export]);
        assert(o.drop_first().drop_first() =~= seq![Scope::PromptRecv, Scope::Export]);
        assert(o.drop_first().drop_first().drop_first() =~= seq![Scope::Export]);
        assert(o.drop_first().drop_first().drop_first().drop_first() =~= Seq::<Scope>::empty());
        reveal_with_fuel(first_missing, 5);
    }
    let next = order[idx];
    let pos = position_scope(&ed.draft.scope, next);
    if pos < ed.draft.scope.len() {
        proof {
            lemma_first_index(have, next);
        }
        ed.draft.scope.remove(pos);
    } else {
        proof {
            lemma_first_index(have, next);
        }
        ed.draft.scope.push(next);
    }
}

/// Turns the next target on or off (see `toggle_cycle`).
pub fn cycle_target(ed: &mut RegexEditorState)
    ensures
        final(ed).draft.target@ == toggle_cycle(target_order(), old(ed).draft.target@),
        final(ed).draft.scope == old(ed).draft.scope,
        final(ed).draft.name == old(ed).draft.name,
        final(ed).draft.pattern == old(ed).draft.pattern,
        final(ed).draft.replacement == old(ed).draft.replacement,
        final(ed).draft.enabled == old(ed).draft.enabled,
        final(ed).draft.pattern_error == old(ed).draft.pattern_error,
        final(ed).sample_input == old(ed).sample_input,
        final(ed).field == old(ed).field,
        final(ed).original_index == old(ed).original_index,
        final(ed).error == old(ed).error,
{
    let ghost have = ed.draft.target@;
    let order: [Target; 4] = [Target::User, Target::Assistant, Target::System, Target::Summary];
    assert(order@ =~= target_order());
    let idx: usize = if position_target(&ed.draft.target, Target::User) == ed.draft.target.len() {
        0
    } else if position_target(&ed.draft.target, Target::Assistant) == ed.draft.target.len() {
        1
    } else if position_target(&ed.draft.target, Target::System) == ed.draft.target.len() {
        2
    } else if position_target(&ed.draft.target, Target::Summary) == ed.draft.target.len() {
        3
    } else {
        0
    };
    proof {
        lemma_first_index(have, Target::User);
        lemma_first_index(have, Target::Assistant);
        lemma_first_index(have, Target::System);
        lemma_first_index(have, Target::Summary);
        let o = target_order();
        assert(o.drop_first() =~= seq![Target::Assistant, Target::System, Target::Summary]);
        assert(o.drop_first().drop_first() =~= seq![Target::System, Target::Summary]);
        assert(o.drop_first().drop_first().drop_first() =~= seq![Target::Summary]);
        assert(o.drop_first().drop_first().drop_first().drop_first() =~= Seq::<Target>::empty());
        reveal_with_fuel(first_missing, 5);
    }
    let next = order[idx];
    let pos = position_target(&ed.draft.target, next);
    if pos < ed.draft.target.len() {
        proof {
            lemma_first_index(have, next);
        }
        ed.draft.target.remove(pos);
    } else {
        proof {
            lemma_first_index(have, next);
        }
        ed.draft.target.push(next);
    }
}


// ---------------------------------------------------------------------
// Checking a pattern
// ---------------------------------------------------------------------

/// Why `regex::Regex::new` refuses a pattern (its error's display text), or `None`
/// when the pattern compiles.
pub uninterp spec fn regex_error(pattern: Seq<char>) -> Option<Seq<char>>;

/// `regex::Regex::new`, keeping only whether it failed and its error's text. Claimed:
/// the outcome depends on the pattern alone.
#[verifier::external_body]
fn regex_compile_error(pattern: &str) -> (r: Option<String>)
    ensures
        match r {
            Some(m) => regex_error(pattern@) == Some(m@),
            None => regex_error(pattern@) is None,
        },
{
    match regex::Regex::new(pattern) {
        Ok(_) => None,
        Err(e) => Some(e.to_string()),
    }
}

/// The message for a pattern that does not compile.
pub open spec fn invalid_pattern_message(err: Seq<char>) -> Seq<char> {
    "invalid pattern: "@ + err
}

/// Records the outcome of compiling the rule's pattern: a failed pattern gets
/// its message stored and disables the rule; a good one clears any stale message.
/// Returns the message of a failure.
pub fn record_pattern_check(rule: &mut RegexRule, error: Option<String>) -> (r: Option<String>)
    ensures
        final(rule).name == old(rule).name,
        final(rule).pattern == old(rule).pattern,
        final(rule).replacement == old(rule).replacement,
        final(rule).scope == old(rule).scope,
        final(rule).target == old(rule).target,
        match error {
            Some(e) => (r matches Some(m) && m@ == invalid_pattern_message(e@))
                && (final(rule).pattern_error matches Some(m) && m@ == invalid_pattern_message(e@))
                && !final(rule).enabled,
            None => r is None && final(rule).pattern_error is None && final(rule).enabled == old(rule).enabled,
        },
{
    rule.pattern_error = None;
    match error {
        Some(e) => {
            let mut msg: Vec<char> = Vec::new();
            crate::text::push_str(&mut msg, "invalid pattern: ");
            crate::text::push_str(&mut msg, e.as_str());
            assert(Seq::<char>::empty() + "invalid pattern: "@ =~= "invalid pattern: "@);
            let m1 = crate::text::string_of(msg.as_slice());
            let m2 = crate::text::string_of(msg.as_slice());
            rule.pattern_error = Some(m1);
            rule.enabled = false;
            Some(m2)
        },
        None => None,
    }
}

/// Compiles the rule's pattern and records the outcome (see `record_pattern_check`).
pub fn validate_pattern(rule: &mut RegexRule) -> (r: Option<String>)
    ensures
        final(rule).name == old(rule).name,
        final(rule).pattern == old(rule).pattern,
        final(rule).replacement == old(rule).replacement,
        final(rule).scope == old(rule).scope,
        final(rule).target == old(rule).target,
        match regex_error(old(rule).pattern@) {
            Some(e) => (r matches Some(m) && m@ == invalid_pattern_message(e)) && (final(rule).pattern_error matches Some(m) && m@ == invalid_pattern_message(e)) && !final(rule).enabled,
            None => r is None && final(rule).pattern_error is None && final(rule).enabled == old(rule).enabled,
        },
{
    let error = regex_compile_error(rule.pattern.as_str());
    record_pattern_check(rule, error)
}

// ---------------------------------------------------------------------
// The edit form
// ---------------------------------------------------------------------

/// What a key press in the edit form asks for.
#[derive(Debug, Clone, Copy, PartialEq, Eq, Structural)]
pub enum RegexEditorAction {
    Continue,
    /// Drop the form without saving.
    Cancel,
    /// Save the draft (Ctrl+S).
    Commit,
}

/// The text of the focused field, for the fields that hold text.
pub open spec fn field_text(ed: RegexEditorState, f: EditorField) -> Option<Seq<char>> {
    match f {
        EditorField::Name => Some(ed.draft.name@),
        EditorField::Pattern => Some(ed.draft.pattern@),
        EditorField::Replacement => Some(ed.draft.replacement@),
        EditorField::SampleInput => Some(ed.sample_input@),
        _ => None,
    }
}

/// `b` is `a` with the text of field `f` replaced by `t` (for a text field), all else
/// equal.
pub open spec fn with_field_text(a: RegexEditorState, b: RegexEditorState, f: EditorField, t: Seq<char>) -> bool {
    &&& b.field == a.field
    &&& b.original_index == a.original_index
    &&& b.error == a.error
    &&& b.draft.scope == a.draft.scope
    &&& b.draft.target == a.draft.target
    &&& b.draft.enabled == a.draft.enabled
    &&& b.draft.pattern_error == a.draft.pattern_error
    &&& (if f == EditorField::Name { b.draft.name@ == t } else { b.draft.name == a.draft.name })
    &&& (if f == EditorField::Pattern { b.draft.pattern@ == t } else { b.draft.pattern == a.draft.pattern })
    &&& (if f == EditorField::Replacement { b.draft.replacement@ == t } else { b.draft.replacement == a.draft.replacement })
    &&& (if f == EditorField::SampleInput { b.sample_input@ == t } else { b.sample_input == a.sample_input })
}

/// `b` equals `a` in everything but the focused field.
pub open spec fn same_but_field(a: RegexEditorState, b: RegexEditorState) -> bool {
    &&& b.original_index == a.original_index
    &&& b.error == a.error
    &&& b.draft.scope == a.draft.scope
    &&& b.draft.target == a.draft.target
    &&& b.draft.enabled == a.draft.enabled
    &&& b.draft.pattern_error == a.draft.pattern_error
    &&& b.draft.name == a.draft.name
    &&& b.draft.pattern == a.draft.pattern
    &&& b.draft.replacement == a.draft.replacement
    &&& b.sample_input == a.sample_input
}

fn append_char(ed: &mut RegexEditorState, c: char)
    ensures
        match field_text(*old(ed), old(ed).field) {
            Some(t) => with_field_text(*old(ed), *final(ed), old(ed).field, t.push(c)),
            None => same_but_field(*old(ed), *final(ed)) && final(ed).field == old(ed).field,
        },
{
    match ed.field {
        EditorField::Name => crate::text::push_char(&mut ed.draft.name, c),
        EditorField::Pattern => crate::text::push_char(&mut ed.draft.pattern, c),
        EditorField::Replacement => crate::text::push_char(&mut ed.draft.replacement, c),
        EditorField::SampleInput => crate::text::push_char(&mut ed.sample_input, c),
        _ => {},
    }
}

fn backspace(ed: &mut RegexEditorState)
    ensures
        match field_text(*old(ed), old(ed).field) {
            Some(t) => with_field_text(
                *old(ed),
                *final(ed),
                old(ed).field,
                if t.len() > 0 {
                    t.drop_last()
                } else {
                    t
                },
            ),
            None => same_but_field(*old(ed), *final(ed)) && final(ed).field == old(ed).field,
        },
{
    match ed.field {
        EditorField::Name => crate::text::pop_char(&mut ed.draft.name),
        EditorField::Pattern => crate::text::pop_char(&mut ed.draft.pattern),
        EditorField::Replacement => crate::text::pop_char(&mut ed.draft.replacement),
        EditorField::SampleInput => crate::text::pop_char(&mut ed.sample_input),
        _ => {},
    }
}

/// Handles a key in the edit form: Esc cancels, Ctrl+S saves, Tab moves to the next
/// field, Space toggles on the toggle rows, other characters (without Ctrl) are typed
/// into the focused text field and Backspace deletes its last character.
pub fn handle_editor_key(key: KeyEvent, ed: &mut RegexEditorState) -> (r: RegexEditorAction)
    ensures
        match key.code {
            KeyCode::Esc => r == RegexEditorAction::Cancel && *final(ed) == *old(ed),
            KeyCode::Char(c) => if key.modifiers.control {
                *final(ed) == *old(ed) && r == (if c == 's' {
                    RegexEditorAction::Commit
                } else {
                    RegexEditorAction::Continue
                })
            } else {
                r == RegexEditorAction::Continue && if c == ' ' && old(ed).field
                    == EditorField::ScopeToggles {
                    final(ed).draft.scope@ == toggle_cycle(scope_order(), old(ed).draft.scope@)
                } else if c == ' ' && old(ed).field == EditorField::TargetToggles {
                    final(ed).draft.target@ == toggle_cycle(target_order(), old(ed).draft.target@)
                } else if c == ' ' && old(ed).field == EditorField::Enabled {
                    final(ed).draft.enabled == !old(ed).draft.enabled
                } else {
                    match field_text(*old(ed), old(ed).field) {
                        Some(t) => with_field_text(*old(ed), *final(ed), old(ed).field, t.push(c)),
                        None => *final(ed) == *old(ed),
                    }
                }
            },
            KeyCode::Tab => r == RegexEditorAction::Continue && final(ed).field == next_field(
                old(ed).field,
            ) && same_but_field(*old(ed), *final(ed)),
            KeyCode::Backspace => r == RegexEditorAction::Continue && match field_text(
                *old(ed),
                old(ed).field,
            ) {
                Some(t) => with_field_text(
                    *old(ed),
                    *final(ed),
                    old(ed).field,
                    if t.len() > 0 {
                        t.drop_last()
                    } else {
                        t
                    },
                ),
                None => same_but_field(*old(ed), *final(ed)) && final(ed).field == old(ed).field,
            },
            _ => r == RegexEditorAction::Continue && *final(ed) == *old(ed),
        },
{
    let ctrl = key.modifiers.control;
    match key.code {
        KeyCode::Esc => RegexEditorAction::Cancel,
        KeyCode::Char(c) => {
            if ctrl {
                if c == 's' {
                    return RegexEditorAction::Commit;
                }
                return RegexEditorAction::Continue;
            }
            if c == ' ' && ed.field == EditorField::ScopeToggles {
                cycle_scope(ed);
            } else if c == ' ' && ed.field == EditorField::TargetToggles {
                cycle_target(ed);
            } else if c == ' ' && ed.field == EditorField::Enabled {
                ed.draft.enabled = !ed.draft.enabled;
            } else {
                append_char(ed, c);
            }
            RegexEditorAction::Continue
        },
        KeyCode::Tab => {
            ed.field = ed.field.next();
            RegexEditorAction::Continue
        },
        KeyCode::Backspace => {
            backspace(ed);
            RegexEditorAction::Continue
        },
        _ => RegexEditorAction::Continue,
    }
}

/// The form for a new rule: display scope, assistant target, enabled, name focused.
pub fn open_editor_for_new() -> (ed: RegexEditorState)
    ensures
        ed.original_index is None,
        ed.draft.name@.len() == 0,
        ed.draft.pattern@.len() == 0,
        ed.draft.replacement@.len() == 0,
        ed.draft.scope@ == seq![Scope::Display],
        ed.draft.target@ == seq![Target::Assistant],
        ed.draft.enabled,
        ed.draft.pattern_error is None,
        ed.sample_input@.len() == 0,
        ed.field == EditorField::Name,
        ed.error is None,
{
    let scope: Vec<Scope> = vec![Scope::Display];
    let target: Vec<Target> = vec![Target::Assistant];
    RegexEditorState {
        original_index: None,
        draft: RegexRule {
            name: String::new(),
            pattern: String::new(),
            replacement: String::new(),
            scope,
            target,
            enabled: true,
            pattern_error: None,
        },
        sample_input: String::new(),
        field: EditorField::Name,
        error: None,
    }
}

fn copy_scopes(v: &Vec<Scope>) -> (r: Vec<Scope>)
    ensures
        r@ == v@,
{
    let mut r: Vec<Scope> = Vec::new();
    let mut i: usize = 0;
    while i < v.len()
        invariant
            i <= v.len(),
            r@ == v@.take(i as int),
        decreases v.len() - i,
    {
        r.push(v[i]);
        assert(r@ =~= v@.take(i + 1));
        i = i + 1;
    }
    assert(v@.take(i as int) =~= v@);
    r
}

fn copy_targets(v: &Vec<Target>) -> (r: Vec<Target>)
    ensures
        r@ == v@,
{
    let mut r: Vec<Target> = Vec::new();
    let mut i: usize = 0;
    while i < v.len()
        invariant
            i <= v.len(),
            r@ == v@.take(i as int),
        decreases v.len() - i,
    {
        r.push(v[i]);
        assert(r@ =~= v@.take(i + 1));
        i = i + 1;
    }
    assert(v@.take(i as int) =~= v@);
    r
}

fn copy_rule(r: &RegexRule) -> (c: RegexRule)
    ensures
        c.name == r.name,
        c.pattern == r.pattern,
        c.replacement == r.replacement,
        c.scope@ == r.scope@,
        c.target@ == r.target@,
        c.enabled == r.enabled,
        c.pattern_error == r.pattern_error,
{
    let pattern_error = match &r.pattern_error {
        Some(e) => Some(e.clone()),
        None => None,
    };
    RegexRule {
        name: r.name.clone(),
        pattern: r.pattern.clone(),
        replacement: r.replacement.clone(),
        scope: copy_scopes(&r.scope),
        target: copy_targets(&r.target),
        enabled: r.enabled,
        pattern_error,
    }
}

/// The form for editing the rule at `index`, name focused.
pub fn open_editor_for_existing(rules: &Vec<RegexRule>, index: usize) -> (ed: RegexEditorState)
    requires
        index < rules@.len(),
    ensures
        ed.original_index == Some(index),
        ed.draft.name == rules@[index as int].name,
        ed.draft.pattern == rules@[index as int].pattern,
        ed.draft.replacement == rules@[index as int].replacement,
        ed.draft.scope@ == rules@[index as int].scope@,
        ed.draft.target@ == rules@[index as int].target@,
        ed.draft.enabled == rules@[index as int].enabled,
        ed.draft.pattern_error == rules@[index as int].pattern_error,
        ed.sample_input@.len() == 0,
        ed.field == EditorField::Name,
        ed.error is None,
{
    let draft = copy_rule(&rules[index]);
    RegexEditorState {
        original_index: Some(index),
        draft,
        sample_input: String::new(),
        field: EditorField::Name,
        error: None,
    }
}

/// The message shown when a rule is saved although its pattern does not compile.
pub open spec fn saved_with_errors_message(msg: Seq<char>) -> Seq<char> {
    "Saved with errors: "@ + msg
}

/// Saves the draft of the form into the rule list (in place of the rule it was
/// opened on, or appended for a new rule) after checking its pattern. Returns the
/// warning to show when the pattern does not compile.
pub fn commit_editor(ed: RegexEditorState, rules: &mut Vec<RegexRule>) -> (warning: Option<String>)
    requires
        ed.original_index matches Some(i) ==> i < old(rules)@.len(),
    ensures
        match ed.original_index {
            Some(i) => final(rules)@.len() == old(rules)@.len() && forall|j: int|
                0 <= j < old(rules)@.len() && j != i ==> #[trigger] final(rules)@[j] == old(rules)@[j],
            None => final(rules)@.len() == old(rules)@.len() + 1 && forall|j: int|
                0 <= j < old(rules)@.len() ==> #[trigger] final(rules)@[j] == old(rules)@[j],
        },
        ({
            let k = match ed.original_index {
                Some(i) => i as int,
                None => old(rules)@.len() as int,
            };
            let saved = final(rules)@[k];
            &&& saved.name == ed.draft.name
            &&& saved.pattern == ed.draft.pattern
            &&& saved.replacement == ed.draft.replacement
            &&& saved.scope == ed.draft.scope
            &&& saved.target == ed.draft.target
            &&& match regex_error(ed.draft.pattern@) {
                Some(e) => !saved.enabled && (saved.pattern_error matches Some(m) && m@
                    == invalid_pattern_message(e)) && (warning matches Some(w) && w@
                    == saved_with_errors_message(invalid_pattern_message(e))),
                None => saved.enabled == ed.draft.enabled && saved.pattern_error is None
                    && warning is None,
            }
        }),
{
    let mut ed = ed;
    let problem = validate_pattern(&mut ed.draft);
    let warning = match problem {
        Some(msg) => {
            let mut w: Vec<char> = Vec::new();
            crate::text::push_str(&mut w, "Saved with errors: ");
            crate::text::push_str(&mut w, msg.as_str());
            assert(Seq::<char>::empty() + "Saved with errors: "@ =~= "Saved with errors: "@);
            Some(crate::text::string_of(w.as_slice()))
        },
        None => None,
    };
    match ed.original_index {
        Some(i) => {
            rules.remove(i);
            rules.insert(i, ed.draft);
        },
        None => {
            rules.push(ed.draft);
        },
    }
    warning
}

// ---------------------------------------------------------------------
// The rule list
// ---------------------------------------------------------------------

/// What a key press in the rule list asks for.
#[derive(Debug, Clone, Copy, PartialEq, Eq, Structural)]
pub enum RegexListAction {
    /// Nothing more to do.
    Continue,
    /// Close the list and return to the input.
    Close,
    /// The rules changed: save the config and recompile.
    Changed,
    /// Open the edit form on the rule at this index.
    EditRule(usize),
    /// Open the edit form on a new rule.
    NewRule,
    /// Ask to confirm deleting the rule at this index.
    ConfirmDelete(usize),
}

/// The selection lies on a rule (when there is any).
pub open spec fn list_well_formed(len: nat, selected: usize) -> bool {
    len > 0 ==> selected < len
}

/// `b` is `a` with the elements at `i` and `j` exchanged.
pub open spec fn swapped<T>(a: Seq<T>, b: Seq<T>, i: int, j: int) -> bool {
    b == a.update(i, a[j]).update(j, a[i])
}

fn swap_rules(rules: &mut Vec<RegexRule>, i: usize)
    requires
        i + 1 < old(rules)@.len(),
    ensures
        swapped(old(rules)@, final(rules)@, i as int, i + 1),
{
    let ghost a = rules@;
    assert(i + 1 < rules.len());
    let second = rules.remove(i + 1);
    rules.insert(i, second);
    assert(rules@ =~= a.update(i as int, a[i + 1]).update(i + 1, a[i as int]));
}

/// Handles a key in the rule list: Up and Down move the selection, Shift+Up and
/// Shift+Down move the selected rule, Space enables or disables it, Enter edits it,
/// `n` starts a new rule, `d` asks to delete it and Esc closes the list.
pub fn handle_list_key(key: KeyEvent, rules: &mut Vec<RegexRule>, selected: &mut usize) -> (r:
    RegexListAction)
    requires
        list_well_formed(old(rules)@.len(), *old(selected)),
    ensures
        list_well_formed(final(rules)@.len(), *final(selected)),
        final(rules)@.len() == old(rules)@.len(),
        ({
            let len = old(rules)@.len();
            let sel = *old(selected);
            let shift = key.modifiers.shift;
            let same = final(rules)@ == old(rules)@ && *final(selected) == sel;
            match key.code {
                KeyCode::Esc => r == RegexListAction::Close && same,
                KeyCode::Up => if !shift && sel > 0 {
                    r == RegexListAction::Continue && final(rules)@ == old(rules)@ && *final(selected) == sel - 1
                } else if shift && sel > 0 && len >= 2 {
                    r == RegexListAction::Changed && swapped(old(rules)@, final(rules)@, sel - 1, sel as int)
                        && *final(selected) == sel - 1
                } else {
                    r == RegexListAction::Continue && same
                },
                KeyCode::Down => if sel + 1 < len {
                    if !shift {
                        r == RegexListAction::Continue && final(rules)@ == old(rules)@ && *final(selected) == sel + 1
                    } else {
                        r == RegexListAction::Changed && swapped(old(rules)@, final(rules)@, sel as int, sel + 1)
                            && *final(selected) == sel + 1
                    }
                } else {
                    r == RegexListAction::Continue && same
                },
                KeyCode::Char(c) => if c == ' ' && len > 0 {
                    r == RegexListAction::Changed && *final(selected) == sel && ({
                        let a = old(rules)@[sel as int];
                        let b = final(rules)@[sel as int];
                        &&& b.enabled == !a.enabled
                        &&& b.name == a.name && b.pattern == a.pattern && b.replacement == a.replacement
                        &&& b.scope == a.scope && b.target == a.target && b.pattern_error == a.pattern_error
                    }) && forall|j: int| 0 <= j < len && j != sel ==> #[trigger] final(rules)@[j] == old(rules)@[j]
                } else if c == 'n' {
                    r == RegexListAction::NewRule && same
                } else if c == 'd' && len > 0 {
                    r == RegexListAction::ConfirmDelete(sel) && same
                } else {
                    r == RegexListAction::Continue && same
                },
                KeyCode::Enter => same && r == (if len > 0 {
                    RegexListAction::EditRule(sel)
                } else {
                    RegexListAction::Continue
                }),
                _ => r == RegexListAction::Continue && same,
            }
        }),
{
    let len = rules.len();
    let shift = key.modifiers.shift;
    match key.code {
        KeyCode::Esc => RegexListAction::Close,
        KeyCode::Up => {
            if !shift && *selected > 0 {
                *selected = *selected - 1;
                RegexListAction::Continue
            } else if shift && *selected > 0 && len >= 2 {
                let i = *selected;
                swap_rules(rules, i - 1);
                *selected = i - 1;
                RegexListAction::Changed
            } else {
                RegexListAction::Continue
            }
        },
        KeyCode::Down => {
            if *selected < len && *selected + 1 < len {
                let i = *selected;
                if shift {
                    swap_rules(rules, i);
                    *selected = i + 1;
                    RegexListAction::Changed
                } else {
                    *selected = i + 1;
                    RegexListAction::Continue
                }
            } else {
                RegexListAction::Continue
            }
        },
        KeyCode::Char(c) => {
            if c == ' ' && len > 0 {
                let i = *selected;
                let mut rule = rules.remove(i);
                rule.enabled = !rule.enabled;
                rules.insert(i, rule);
                RegexListAction::Changed
            } else if c == 'n' {
                RegexListAction::NewRule
            } else if c == 'd' && len > 0 {
                RegexListAction::ConfirmDelete(*selected)
            } else {
                RegexListAction::Continue
            }
        },
        KeyCode::Enter => {
            if len > 0 {
                RegexListAction::EditRule(*selected)
            } else {
                RegexListAction::Continue
            }
        },
        _ => RegexListAction::Continue,
    }
}

/// Moving a rule up and then down again (Shift+Up, Shift+Down) puts the list back as
/// it was: the second exchange of the same two neighbours undoes the first.
pub proof fn law_move_back_restores(a: Seq<RegexRule>, b: Seq<RegexRule>, c: Seq<RegexRule>, i: int)
    requires
        0 <= i,
        i + 1 < a.len(),
        swapped(a, b, i, i + 1),
        swapped(b, c, i, i + 1),
    ensures
        c == a,
{
    assert(c =~= a);
}

/// Space pressed twice on a rule leaves it as it was (enabled flipped twice, the rest
/// untouched).
pub proof fn law_toggle_twice_restores(a: RegexRule, b: RegexRule, c: RegexRule)
    requires
        b.enabled == !a.enabled,
        b.name == a.name && b.pattern == a.pattern && b.replacement == a.replacement,
        b.scope == a.scope && b.target == a.target && b.pattern_error == a.pattern_error,
        c.enabled == !b.enabled,
        c.name == b.name && c.pattern == b.pattern && c.replacement == b.replacement,
        c.scope == b.scope && c.target == b.target && c.pattern_error == b.pattern_error,
    ensures
        c == a,
{
}

/// Deletes the selected rule (if the selection lies on one), keeping the selection on
/// a rule. Returns whether a rule was deleted.
pub fn perform_delete_selected(rules: &mut Vec<RegexRule>, selected: &mut usize) -> (deleted: bool)
    ensures
        deleted == (*old(selected) < old(rules)@.len()),
        deleted ==> final(rules)@ == old(rules)@.remove(*old(selected) as int),
        deleted ==> *final(selected) == (if *old(selected) >= final(rules)@.len() && *old(selected) > 0 {
            (*old(selected) - 1) as usize
        } else {
            *old(selected)
        }),
        !deleted ==> final(rules)@ == old(rules)@ && *final(selected) == *old(selected),
{
    let i = *selected;
    if i >= rules.len() {
        return false;
    }
    rules.remove(i);
    if *selected >= rules.len() && *selected > 0 {
        *selected = *selected - 1;
    }
    true
}

/// The selection when the list opens: the remembered one, kept within the list.
pub fn clamp_list_selection(selected: usize, len: usize) -> (r: usize)
    ensures
        r == (if len == 0 {
            0
        } else if selected < len {
            selected
        } else {
            (len - 1) as usize
        }),
        list_well_formed(len as nat, r),
{
    let last = if len == 0 {
        0
    } else {
        len - 1
    };
    if selected < last {
        selected
    } else {
        last
    }
}


/// The letter a scope shows in the rule list.
pub open spec fn scope_letter(s: Scope) -> char {
    match s {
        Scope::Display => 'D',
        Scope::PromptSend => 'S',
        Scope::PromptRecv => 'R',
        Scope::Export => 'E',
    }
}

/// The short name a target shows in the rule list.
pub open spec fn target_label(t: Target) -> Seq<char> {
    match t {
        Target::User => "user"@,
        Target::Assistant => "asst"@,
        Target::System => "sys"@,
        Target::Summary => "sum"@,
    }
}

/// The pieces joined with `/` between them.
pub open spec fn join_slash(parts: Seq<Seq<char>>) -> Seq<char>
    decreases parts.len(),
{
    if parts.len() == 0 {
        Seq::empty()
    } else if parts.len() == 1 {
        parts[0]
    } else {
        join_slash(parts.drop_last()) + seq!['/'] + parts.last()
    }
}

/// `s` padded with spaces on the right to at least `width` characters.
pub open spec fn pad_right(s: Seq<char>, width: nat) -> Seq<char> {
    if s.len() >= width {
        s
    } else {
        s + Seq::new((width - s.len()) as nat, |_i: int| ' ')
    }
}

/// One line of the rule list: check box, name, scope letters, targets, and a warning
/// when the pattern does not compile.
pub open spec fn rule_summary(
    enabled: bool,
    name: Seq<char>,
    scope: Seq<Scope>,
    target: Seq<Target>,
    invalid: bool,
) -> Seq<char> {
    (if enabled { "[x]"@ } else { "[ ]"@ }) + seq![' '] + pad_right(name, 32) + seq![' ', ' ']
        + pad_right(scope.map_values(|s: Scope| scope_letter(s)), 4) + seq![' ', ' ']
        + join_slash(target.map_values(|t: Target| target_label(t)))
        + (if invalid { "  WARN invalid"@ } else { Seq::empty() })
}

fn push_padded(dst: &mut Vec<char>, s: &[char], width: usize)
    ensures
        final(dst)@ == old(dst)@ + pad_right(s@, width as nat),
{
    push_all(dst, s);
    let mut n = s.len();
    while n < width
        invariant
            s@.len() <= n <= width || (n == s@.len() && n >= width),
            dst@ == old(dst)@ + s@ + Seq::new((n - s@.len()) as nat, |_i: int| ' '),
        decreases width - n,
    {
        dst.push(' ');
        assert(Seq::new((n - s@.len()) as nat, |_i: int| ' ').push(' ') =~= Seq::new(
            (n + 1 - s@.len()) as nat,
            |_i: int| ' ',
        ));
        n = n + 1;
    }
    assert(s@ + Seq::new((n - s@.len()) as nat, |_i: int| ' ') =~= pad_right(s@, width as nat));
}

fn push_target_label(dst: &mut Vec<char>, t: Target)
    ensures
        final(dst)@ == old(dst)@ + target_label(t),
{
    match t {
        Target::User => push_str(dst, "user"),
        Target::Assistant => push_str(dst, "asst"),
        Target::System => push_str(dst, "sys"),
        Target::Summary => push_str(dst, "sum"),
    }
}

/// The line that shows `rule` in the rule list.
pub fn format_rule_summary(rule: &RegexRule) -> (r: String)
    ensures
        r@ == rule_summary(
            rule.enabled,
            rule.name@,
            rule.scope@,
            rule.target@,
            rule.pattern_error.is_some(),
        ),
{
    let mut out: Vec<char> = Vec::new();
    if rule.enabled {
        push_str(&mut out, "[x]");
    } else {
        push_str(&mut out, "[ ]");
    }
    out.push(' ');
    let name = chars_of(rule.name.as_str());
    push_padded(&mut out, name.as_slice(), 32);
    out.push(' ');
    out.push(' ');
    let ghost head = out@;
    let mut letters: Vec<char> = Vec::new();
    let mut i: usize = 0;
    while i < rule.scope.len()
        invariant
            i <= rule.scope@.len(),
            letters@ == rule.scope@.take(i as int).map_values(|s: Scope| scope_letter(s)),
        decreases rule.scope.len() - i,
    {
        let c = match rule.scope[i] {
            Scope::Display => 'D',
            Scope::PromptSend => 'S',
            Scope::PromptRecv => 'R',
            Scope::Export => 'E',
        };
        letters.push(c);
        assert(rule.scope@.take(i + 1).map_values(|s: Scope| scope_letter(s)) =~= rule.scope@.take(
            i as int,
        ).map_values(|s: Scope| scope_letter(s)).push(scope_letter(rule.scope@[i as int])));
        i = i + 1;
    }
    assert(rule.scope@.take(rule.scope@.len() as int) =~= rule.scope@);
    push_padded(&mut out, letters.as_slice(), 4);
    out.push(' ');
    out.push(' ');
    let ghost before_targets = out@;
    let ghost labels = rule.target@.map_values(|t: Target| target_label(t));
    let mut j: usize = 0;
    while j < rule.target.len()
        invariant
            j <= rule.target@.len(),
            labels == rule.target@.map_values(|t: Target| target_label(t)),
            out@ == before_targets + join_slash(labels.take(j as int)),
        decreases rule.target.len() - j,
    {
        let ghost prev = out@;
        if j > 0 {
            out.push('/');
        }
        push_target_label(&mut out, rule.target[j]);
        assert(labels.take(j + 1).drop_last() =~= labels.take(j as int));
        assert(labels.take(j + 1).last() == labels[j as int]);
        if j == 0 {
            assert(labels.take(1) =~= seq![labels[0]]);
        }
        assert(out@ =~= before_targets + join_slash(labels.take(j + 1)));
        j = j + 1;
    }
    assert(labels.take(labels.len() as int) =~= labels);
    if rule.pattern_error.is_some() {
        push_str(&mut out, "  WARN invalid");
    }
    string_of(out.as_slice())
}

} // verus!
