use libllm_tui::confirm::{
    challenge_from, danger_summary_message, generate_challenge, handle_danger_confirm_key, DangerSummary, handle_danger_tab_key, handle_danger_typed_key,
    handle_template_prompt_key, handle_unsaved_key, injection_warning_dismisses, DangerConfirmResult,
    DangerOp, DangerTabResult, DangerTypedResult, DelimiterKind, InjectionWarning,
    TemplatePromptResult, TemplatePromptState, TypedConfirmState, UnsavedButton, UnsavedOutcome,
    UnsavedWarningState,
};
use libllm_tui::keys::{KeyCode, KeyEvent, KeyModifiers};

fn k(code: KeyCode) -> KeyEvent {
    KeyEvent::new(code, KeyModifiers::none())
}

// --- danger confirm ---

#[test]
fn arrow_toggles_selection() {
    let mut s = 0;
    let _ = handle_danger_confirm_key(k(KeyCode::Right), &mut s);
    assert_eq!(s, 1);
    let _ = handle_danger_confirm_key(k(KeyCode::Left), &mut s);
    assert_eq!(s, 0);
}

#[test]
fn enter_on_cancel_returns_cancel() {
    let mut s = 0;
    let r = handle_danger_confirm_key(k(KeyCode::Enter), &mut s);
    assert!(matches!(r, DangerConfirmResult::Cancel));
}

#[test]
fn enter_on_confirm_returns_confirm() {
    let mut s = 1;
    let r = handle_danger_confirm_key(k(KeyCode::Enter), &mut s);
    assert!(matches!(r, DangerConfirmResult::Confirm));
}

#[test]
fn danger_confirm_esc_and_other_keys() {
    let mut s = 1;
    assert_eq!(handle_danger_confirm_key(k(KeyCode::Esc), &mut s), DangerConfirmResult::Cancel);
    assert_eq!(handle_danger_confirm_key(k(KeyCode::Char('y')), &mut s), DangerConfirmResult::Pending);
    assert_eq!(s, 1);
}

// --- danger tab ---

#[test]
fn down_increments_with_wrap() {
    let mut s = 6;
    let _ = handle_danger_tab_key(k(KeyCode::Down), &mut s);
    assert_eq!(s, 0);
}

#[test]
fn up_decrements_with_wrap() {
    let mut s = 0;
    let _ = handle_danger_tab_key(k(KeyCode::Up), &mut s);
    assert_eq!(s, 6);
}

#[test]
fn enter_returns_op_for_selection() {
    let mut s = 0;
    let r = handle_danger_tab_key(k(KeyCode::Enter), &mut s);
    assert!(matches!(r, DangerTabResult::OpenConfirm(DangerOp::ClearStores)));
    s = 6;
    let r = handle_danger_tab_key(k(KeyCode::Enter), &mut s);
    assert!(matches!(r, DangerTabResult::OpenConfirm(DangerOp::DestroyAll)));
}

#[test]
fn danger_tab_other_keys_pass_through() {
    let mut s = 3;
    assert_eq!(handle_danger_tab_key(k(KeyCode::Tab), &mut s), DangerTabResult::Passthrough);
    assert_eq!(s, 3);
}

// --- typed confirm ---

fn fixture(challenge: &str) -> TypedConfirmState {
    TypedConfirmState {
        challenge: challenge.to_owned(),
        input: String::new(),
        cursor_pos: 0,
        op: DangerOp::DestroyAll,
        snapshot_path: "/tmp/test.tar.zst".to_owned(),
        focus_idx: 0,
    }
}

fn type_string(state: &mut TypedConfirmState, s: &str) {
    for c in s.chars() {
        handle_danger_typed_key(k(KeyCode::Char(c)), state);
    }
}

#[test]
fn challenge_is_8_chars_alphanumeric() {
    for _ in 0..32 {
        let c = generate_challenge();
        assert_eq!(c.len(), 8);
        assert!(c.chars().all(|ch| ch.is_ascii_uppercase() || ch.is_ascii_digit()));
    }
}

#[test]
fn enter_on_destroy_disabled_when_input_empty() {
    let mut s = fixture("ABCDEFGH");
    s.focus_idx = 2;
    let r = handle_danger_typed_key(k(KeyCode::Enter), &mut s);
    assert!(matches!(r, DangerTypedResult::Pending));
}

#[test]
fn typing_records_chars_at_cursor() {
    let mut s = fixture("ABC12XYZ");
    type_string(&mut s, "ABC12XYZ");
    assert_eq!(s.input, "ABC12XYZ");
    assert_eq!(s.cursor_pos, 8);
}

#[test]
fn enter_when_matched_returns_destroy() {
    let mut s = fixture("AAAAAAAA");
    s.input = "AAAAAAAA".to_owned();
    s.cursor_pos = 8;
    s.focus_idx = 2;
    let r = handle_danger_typed_key(k(KeyCode::Enter), &mut s);
    assert!(matches!(r, DangerTypedResult::Destroy));
}

#[test]
fn esc_returns_cancel() {
    let mut s = fixture("AAAAAAAA");
    let r = handle_danger_typed_key(k(KeyCode::Esc), &mut s);
    assert!(matches!(r, DangerTypedResult::Cancel));
}

#[test]
fn typed_chars_preserve_case() {
    let mut s = fixture("ABCDEFGH");
    handle_danger_typed_key(k(KeyCode::Char('a')), &mut s);
    assert_eq!(s.input, "a");
}

#[test]
fn left_arrow_moves_cursor_back() {
    let mut s = fixture("X");
    type_string(&mut s, "AB");
    assert_eq!(s.cursor_pos, 2);
    handle_danger_typed_key(k(KeyCode::Left), &mut s);
    assert_eq!(s.cursor_pos, 1);
}

#[test]
fn backspace_removes_char_before_cursor() {
    let mut s = fixture("X");
    type_string(&mut s, "ABC");
    handle_danger_typed_key(k(KeyCode::Left), &mut s);
    handle_danger_typed_key(k(KeyCode::Backspace), &mut s);
    assert_eq!(s.input, "AC");
    assert_eq!(s.cursor_pos, 1);
}

#[test]
fn tab_advances_focus_when_matched() {
    let mut s = fixture("AB");
    type_string(&mut s, "AB");
    assert_eq!(s.focus_idx, 0);
    handle_danger_typed_key(k(KeyCode::Tab), &mut s);
    assert_eq!(s.focus_idx, 1);
    handle_danger_typed_key(k(KeyCode::Tab), &mut s);
    assert_eq!(s.focus_idx, 2);
}

#[test]
fn tab_skips_destroy_when_not_matched() {
    let mut s = fixture("AB");
    type_string(&mut s, "A");
    handle_danger_typed_key(k(KeyCode::Tab), &mut s);
    handle_danger_typed_key(k(KeyCode::Tab), &mut s);
    assert_eq!(s.focus_idx, 0);
    handle_danger_typed_key(k(KeyCode::BackTab), &mut s);
    assert_eq!(s.focus_idx, 1);
}

#[test]
fn typed_confirm_editing_keys() {
    let mut s = fixture("X");
    type_string(&mut s, "héllo");
    handle_danger_typed_key(k(KeyCode::Home), &mut s);
    handle_danger_typed_key(k(KeyCode::Delete), &mut s);
    assert_eq!(s.input, "éllo");
    assert_eq!(s.cursor_pos, 0);
    handle_danger_typed_key(k(KeyCode::Right), &mut s);
    handle_danger_typed_key(k(KeyCode::Char('X')), &mut s);
    assert_eq!(s.input, "éXllo");
    handle_danger_typed_key(k(KeyCode::End), &mut s);
    assert_eq!(s.cursor_pos, 5);
    handle_danger_typed_key(k(KeyCode::Delete), &mut s);
    assert_eq!(s.input, "éXllo");
}

// --- template prompt ---

fn fixture_state() -> TemplatePromptState {
    TemplatePromptState {
        suggested_preset: "ChatML".to_owned(),
        is_best_guess: false,
        server_template_hash: "abc123".to_owned(),
        button_selected: 1,
        expanded: false,
    }
}

#[test]
fn arrow_keys_toggle_button() {
    let mut s = fixture_state();
    assert_eq!(s.button_selected, 1);
    let _ = handle_template_prompt_key(k(KeyCode::Left), &mut s);
    assert_eq!(s.button_selected, 0);
}

#[test]
fn enter_on_yes_returns_switch() {
    let mut s = fixture_state();
    s.button_selected = 0;
    let r = handle_template_prompt_key(k(KeyCode::Enter), &mut s);
    assert!(matches!(r, TemplatePromptResult::Switch));
}

#[test]
fn enter_on_no_returns_dismiss() {
    let mut s = fixture_state();
    s.button_selected = 1;
    let r = handle_template_prompt_key(k(KeyCode::Enter), &mut s);
    assert!(matches!(r, TemplatePromptResult::Dismiss));
}

#[test]
fn esc_returns_dismiss() {
    let mut s = fixture_state();
    let r = handle_template_prompt_key(k(KeyCode::Esc), &mut s);
    assert!(matches!(r, TemplatePromptResult::Dismiss));
}

#[test]
fn tab_toggles_expanded() {
    let mut s = fixture_state();
    assert!(!s.expanded);
    let _ = handle_template_prompt_key(k(KeyCode::Tab), &mut s);
    assert!(s.expanded);
}

// --- unsaved warning ---

fn unsaved_fixture() -> UnsavedWarningState {
    UnsavedWarningState { focused: UnsavedButton::SaveAndClose }
}

#[test]
fn left_right_cycle_through_three_buttons() {
    let mut state = unsaved_fixture();
    assert_eq!(state.focused, UnsavedButton::SaveAndClose);
    handle_unsaved_key(&mut state, k(KeyCode::Right));
    assert_eq!(state.focused, UnsavedButton::Discard);
    handle_unsaved_key(&mut state, k(KeyCode::Right));
    assert_eq!(state.focused, UnsavedButton::Cancel);
    handle_unsaved_key(&mut state, k(KeyCode::Right));
    assert_eq!(state.focused, UnsavedButton::SaveAndClose);
}

#[test]
fn left_wraps_backward() {
    let mut state = unsaved_fixture();
    handle_unsaved_key(&mut state, k(KeyCode::Left));
    assert_eq!(state.focused, UnsavedButton::Cancel);
}

#[test]
fn enter_chooses_focused() {
    let mut state = unsaved_fixture();
    state.focused = UnsavedButton::Discard;
    assert_eq!(
        handle_unsaved_key(&mut state, k(KeyCode::Enter)),
        UnsavedOutcome::Chosen(UnsavedButton::Discard),
    );
}

#[test]
fn esc_always_chooses_cancel() {
    let mut state = unsaved_fixture();
    state.focused = UnsavedButton::Discard;
    assert_eq!(
        handle_unsaved_key(&mut state, k(KeyCode::Esc)),
        UnsavedOutcome::Chosen(UnsavedButton::Cancel),
    );
}

#[test]
fn unsaved_warning_starts_on_save() {
    assert_eq!(UnsavedWarningState::new().focused, UnsavedButton::SaveAndClose);
}

// --- injection warning ---

#[test]
fn injection_warning_state_round_trip() {
    let w = InjectionWarning {
        basename: "evil.md".to_owned(),
        delimiter: "<<<FILE \u{2026}>>>",
    };
    assert_eq!(w.basename, "evil.md");
    assert_eq!(w.delimiter, "<<<FILE \u{2026}>>>");
}

#[test]
fn injection_warning_names_delimiter() {
    let w = InjectionWarning::new("notes.md".to_owned(), DelimiterKind::End);
    assert_eq!(w.delimiter, "<<<END ...>>>");
    assert!(injection_warning_dismisses(k(KeyCode::Char(' '))));
    assert!(injection_warning_dismisses(k(KeyCode::Esc)));
    assert!(!injection_warning_dismisses(k(KeyCode::Char('x'))));
}

#[test]
fn danger_summaries_read_as_reported() {
    assert_eq!(
        danger_summary_message(DangerOp::ClearStores, DangerSummary::RowsAffected(3)),
        "Cleared 3 dismissed prompt(s)"
    );
    assert_eq!(
        danger_summary_message(DangerOp::RegeneratePresets, DangerSummary::PresetsWritten { written: 12, failed: 0 }),
        "Regenerated 12 preset(s)"
    );
    assert_eq!(
        danger_summary_message(DangerOp::RegeneratePresets, DangerSummary::PresetsWritten { written: 10, failed: 2 }),
        "Regenerated 10 preset(s); 2 failed"
    );
    assert_eq!(
        danger_summary_message(DangerOp::PurgeChats, DangerSummary::RowsAffected(7)),
        "Purged 7 chat(s) \u{2014} restart to reflect changes"
    );
    assert_eq!(
        danger_summary_message(DangerOp::PurgeCharacters, DangerSummary::RowsAffected(0)),
        "Purged 0 character(s)"
    );
    assert_eq!(
        danger_summary_message(DangerOp::PurgePersonas, DangerSummary::RowsAffected(1)),
        "Purged 1 persona(s)"
    );
    assert_eq!(
        danger_summary_message(DangerOp::PurgeWorldbooks, DangerSummary::RowsAffected(2)),
        "Purged 2 worldbook(s)"
    );
    assert_eq!(
        danger_summary_message(DangerOp::PurgeChats, DangerSummary::PresetsWritten { written: 1, failed: 1 }),
        "Operation complete"
    );
}

#[test]
fn challenge_spells_the_draws() {
    assert_eq!(challenge_from(&[0, 1, 25, 26, 35, 7, 7, 30]), "ABZ09HH4");
}
