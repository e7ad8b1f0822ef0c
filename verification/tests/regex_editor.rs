use libllm_tui::keys::{KeyCode, KeyEvent, KeyModifiers};
use libllm_tui::regex_editor::{
    commit_editor, cycle_scope, cycle_target, handle_editor_key, handle_list_key,
    format_rule_summary, open_editor_for_existing, open_editor_for_new, perform_delete_selected,
    validate_pattern,
    EditorField, RegexEditorAction, RegexEditorState, RegexListAction, RegexRule, Scope, Target,
};

fn k(code: KeyCode) -> KeyEvent {
    KeyEvent::new(code, KeyModifiers::none())
}

fn rule(name: &str, pattern: &str) -> RegexRule {
    RegexRule {
        name: name.to_owned(),
        pattern: pattern.to_owned(),
        replacement: String::new(),
        scope: vec![Scope::Display],
        target: vec![Target::Assistant],
        enabled: true,
        pattern_error: None,
    }
}

#[test]
fn validate_pattern_marks_invalid_rule_disabled() {
    let mut rule = RegexRule {
        name: "bad".to_owned(),
        pattern: "(unclosed".to_owned(),
        replacement: String::new(),
        scope: vec![Scope::Display],
        target: vec![Target::Assistant],
        enabled: true,
        pattern_error: None,
    };
    let result = validate_pattern(&mut rule);
    assert!(result.is_some(), "invalid pattern should produce an error message");
    assert!(!rule.enabled, "invalid pattern must disable the rule");
    assert!(rule.pattern_error.is_some(), "compile_error must be set");
}

#[test]
fn validate_pattern_clears_compile_error_on_valid_pattern() {
    let mut rule = RegexRule {
        name: "good".to_owned(),
        pattern: "x".to_owned(),
        replacement: "y".to_owned(),
        scope: vec![Scope::Display],
        target: vec![Target::Assistant],
        enabled: true,
        pattern_error: Some("stale error".to_owned()),
    };
    let result = validate_pattern(&mut rule);
    assert!(result.is_none(), "valid pattern should return None");
    assert!(rule.pattern_error.is_none(), "stale compile_error must be cleared");
    assert!(rule.enabled, "valid pattern must not change enabled flag");
}

#[test]
fn cycle_scope_toggles_each_scope_once() {
    let mut state = RegexEditorState {
        original_index: None,
        draft: RegexRule {
            name: "x".to_owned(),
            pattern: "x".to_owned(),
            replacement: "y".to_owned(),
            scope: Vec::new(),
            target: vec![Target::Assistant],
            enabled: true,
            pattern_error: None,
        },
        sample_input: String::new(),
        field: EditorField::ScopeToggles,
        error: None,
    };
    cycle_scope(&mut state);
    cycle_scope(&mut state);
    cycle_scope(&mut state);
    cycle_scope(&mut state);
    assert_eq!(state.draft.scope.len(), 4);
}

#[test]
fn cycling_with_all_on_turns_first_off() {
    let mut state = open_editor_for_new();
    state.draft.target = vec![Target::User, Target::Assistant, Target::System, Target::Summary];
    cycle_target(&mut state);
    assert_eq!(state.draft.target, vec![Target::Assistant, Target::System, Target::Summary]);
    cycle_target(&mut state);
    assert_eq!(state.draft.target, vec![Target::Assistant, Target::System, Target::Summary, Target::User]);
}

#[test]
fn editor_keys_type_toggle_and_commit() {
    let mut ed = open_editor_for_new();
    for c in "lower".chars() {
        handle_editor_key(k(KeyCode::Char(c)), &mut ed);
    }
    handle_editor_key(k(KeyCode::Backspace), &mut ed);
    assert_eq!(ed.draft.name, "lowe");
    handle_editor_key(k(KeyCode::Tab), &mut ed);
    assert_eq!(ed.field, EditorField::Pattern);
    handle_editor_key(k(KeyCode::Char(' ')), &mut ed);
    assert_eq!(ed.draft.pattern, " ");
    for _ in 0..4 {
        handle_editor_key(k(KeyCode::Tab), &mut ed);
    }
    assert_eq!(ed.field, EditorField::Enabled);
    handle_editor_key(k(KeyCode::Char(' ')), &mut ed);
    assert!(!ed.draft.enabled);
    let ctrl_s = KeyEvent::new(KeyCode::Char('s'), KeyModifiers::control());
    assert_eq!(handle_editor_key(ctrl_s, &mut ed), RegexEditorAction::Commit);
    assert_eq!(handle_editor_key(k(KeyCode::Esc), &mut ed), RegexEditorAction::Cancel);
}

#[test]
fn commit_replaces_or_appends_and_warns() {
    let mut rules = vec![rule("a", "a+"), rule("b", "b")];
    let mut ed = open_editor_for_existing(&rules, 1);
    ed.draft.pattern = "(".to_owned();
    let warning = commit_editor(ed, &mut rules);
    assert_eq!(rules.len(), 2);
    assert!(!rules[1].enabled);
    assert!(warning.unwrap().starts_with("Saved with errors: invalid pattern: "));
    let mut ed = open_editor_for_new();
    ed.draft.name = "c".to_owned();
    ed.draft.pattern = "c".to_owned();
    assert!(commit_editor(ed, &mut rules).is_none());
    assert_eq!(rules.len(), 3);
    assert_eq!(rules[2].name, "c");
}

#[test]
fn list_keys_move_reorder_toggle_and_delete() {
    let mut rules = vec![rule("a", "a"), rule("b", "b"), rule("c", "c")];
    let mut sel = 0;
    assert_eq!(handle_list_key(k(KeyCode::Down), &mut rules, &mut sel), RegexListAction::Continue);
    assert_eq!(sel, 1);
    let shift_down = KeyEvent::new(KeyCode::Down, KeyModifiers::shift());
    assert_eq!(handle_list_key(shift_down, &mut rules, &mut sel), RegexListAction::Changed);
    assert_eq!(sel, 2);
    assert_eq!(rules[2].name, "b");
    let shift_up = KeyEvent::new(KeyCode::Up, KeyModifiers::shift());
    handle_list_key(shift_up, &mut rules, &mut sel);
    assert_eq!(rules.iter().map(|r| r.name.as_str()).collect::<Vec<_>>(), vec!["a", "b", "c"]);
    assert_eq!(handle_list_key(k(KeyCode::Char(' ')), &mut rules, &mut sel), RegexListAction::Changed);
    assert!(!rules[1].enabled);
    assert_eq!(handle_list_key(k(KeyCode::Char('d')), &mut rules, &mut sel), RegexListAction::ConfirmDelete(1));
    assert_eq!(handle_list_key(k(KeyCode::Enter), &mut rules, &mut sel), RegexListAction::EditRule(1));
    assert_eq!(handle_list_key(k(KeyCode::Char('n')), &mut rules, &mut sel), RegexListAction::NewRule);
    assert_eq!(handle_list_key(k(KeyCode::Esc), &mut rules, &mut sel), RegexListAction::Close);
    sel = 2;
    assert!(perform_delete_selected(&mut rules, &mut sel));
    assert_eq!(sel, 1);
    assert_eq!(rules.len(), 2);
}

#[test]
fn rule_summary_pads_name_and_scopes() {
    let mut r = rule("trim", "x");
    r.scope = vec![Scope::Display, Scope::PromptSend];
    r.target = vec![Target::User, Target::Assistant];
    let line = format_rule_summary(&r);
    let expected = format!("[x] {:<32}  {:<4}  user/asst", "trim", "DS");
    assert_eq!(line, expected);
}

#[test]
fn rule_summary_marks_disabled_and_invalid() {
    let mut r = rule("bad", "(");
    r.enabled = false;
    r.scope = vec![Scope::PromptRecv, Scope::Export, Scope::Display, Scope::PromptSend];
    r.target = vec![Target::System, Target::Summary];
    r.pattern_error = Some("unclosed group".to_owned());
    let line = format_rule_summary(&r);
    assert_eq!(line, format!("[ ] {:<32}  REDS  sys/sum  WARN invalid", "bad"));
}

#[test]
fn rule_summary_keeps_long_names_whole() {
    let long = "a".repeat(40);
    let mut r = rule(&long, "x");
    r.target = vec![];
    r.scope = vec![];
    let line = format_rule_summary(&r);
    assert_eq!(line, format!("[x] {long}  {:<4}  ", ""));
}
