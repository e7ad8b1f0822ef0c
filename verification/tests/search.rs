use libllm_tui::keys::{KeyCode, KeyEvent, KeyModifiers};
use libllm_tui::search::{
    collapse_newlines, debounce_passed, handle_key, highlight_segments, preview_line_count, preview_rows, trunc,
    HighlightSegment, QueryStep, SearchDialogOutcome, SearchDialogState, SearchHit, PAGE_SIZE,
    PREVIEW_LINE_CAP,
};

fn key(code: KeyCode) -> KeyEvent {
    KeyEvent::new(code, KeyModifiers::none())
}

fn dummy_hit() -> SearchHit {
    SearchHit {
        session_id: "s".into(),
        session_display_name: "S".into(),
        message_id: 0,
        message_rowid: 0,
        role: "user".into(),
        timestamp: "2026-01-01T00:00:00Z".into(),
        snippet: String::new(),
        preview_text: String::new(),
    }
}

#[test]
fn typing_chars_appends_to_input_and_marks_keystroke() {
    let mut state = SearchDialogState::new();
    for c in "red".chars() {
        handle_key(&mut state, key(KeyCode::Char(c)));
    }
    assert_eq!(state.input, "red");
    assert_eq!(state.cursor, 3);
    assert!(state.last_keystroke.is_some());
}

#[test]
fn backspace_removes_last_char() {
    let mut state = SearchDialogState::new();
    for c in "redact".chars() {
        handle_key(&mut state, key(KeyCode::Char(c)));
    }
    handle_key(&mut state, key(KeyCode::Backspace));
    assert_eq!(state.input, "redac");
    assert_eq!(state.cursor, 5);
}

#[test]
fn esc_returns_close_outcome() {
    let mut state = SearchDialogState::new();
    handle_key(&mut state, key(KeyCode::Char('x')));
    let outcome = handle_key(&mut state, key(KeyCode::Esc));
    assert!(matches!(outcome, SearchDialogOutcome::Close));
}

#[test]
fn enter_returns_submit_outcome() {
    let mut state = SearchDialogState::new();
    let outcome = handle_key(&mut state, key(KeyCode::Enter));
    assert!(matches!(outcome, SearchDialogOutcome::Submit));
}

#[test]
fn arrow_keys_move_selection_within_hits() {
    let mut state = SearchDialogState::new();
    state.hits = vec![dummy_hit(), dummy_hit(), dummy_hit()];
    handle_key(&mut state, key(KeyCode::Down));
    assert_eq!(state.selected, 1);
    handle_key(&mut state, key(KeyCode::Down));
    assert_eq!(state.selected, 2);
    handle_key(&mut state, key(KeyCode::Down));
    assert_eq!(state.selected, 2, "selection should clamp at hits.len() - 1");
    handle_key(&mut state, key(KeyCode::Up));
    assert_eq!(state.selected, 1);
}

#[test]
fn ctrl_modified_chars_are_consumed_without_input_change() {
    let mut state = SearchDialogState::new();
    let ctrl_key = KeyEvent::new(KeyCode::Char('f'), KeyModifiers::control());
    let outcome = handle_key(&mut state, ctrl_key);
    assert_eq!(state.input, "");
    assert!(matches!(outcome, SearchDialogOutcome::Consumed));
}

#[test]
fn ctrl_r_adds_m_prefix_when_absent() {
    let mut state = SearchDialogState::new();
    state.input = "redact".into();
    state.cursor = state.input.chars().count();
    handle_key(&mut state, KeyEvent::new(KeyCode::Char('r'), KeyModifiers::control()));
    assert_eq!(state.input, "m:redact");
    assert_eq!(state.cursor, "m:redact".chars().count());
}

#[test]
fn ctrl_r_strips_m_prefix_when_present() {
    let mut state = SearchDialogState::new();
    state.input = "m:redact".into();
    state.cursor = state.input.chars().count();
    handle_key(&mut state, KeyEvent::new(KeyCode::Char('r'), KeyModifiers::control()));
    assert_eq!(state.input, "redact");
    assert_eq!(state.cursor, "redact".chars().count());
}

#[test]
fn page_down_advances_by_page_size() {
    let mut state = SearchDialogState::new();
    state.hits = (0..50).map(|_| dummy_hit()).collect();
    handle_key(&mut state, key(KeyCode::PageDown));
    assert_eq!(state.selected, PAGE_SIZE);
}

#[test]
fn page_down_clamps_at_last_hit() {
    let mut state = SearchDialogState::new();
    state.hits = (0..5).map(|_| dummy_hit()).collect();
    handle_key(&mut state, key(KeyCode::PageDown));
    assert_eq!(state.selected, 4);
}

#[test]
fn page_up_retreats_by_page_size() {
    let mut state = SearchDialogState::new();
    state.hits = (0..50).map(|_| dummy_hit()).collect();
    state.selected = 25;
    handle_key(&mut state, key(KeyCode::PageUp));
    assert_eq!(state.selected, 25 - PAGE_SIZE);
}

#[test]
fn page_up_saturates_at_zero() {
    let mut state = SearchDialogState::new();
    state.hits = (0..5).map(|_| dummy_hit()).collect();
    handle_key(&mut state, key(KeyCode::PageUp));
    assert_eq!(state.selected, 0);
}

#[test]
fn maybe_run_query_returns_hits_after_debounce() {
    let mut state = SearchDialogState::new();
    for c in "red".chars() {
        handle_key(&mut state, key(KeyCode::Char(c)));
    }
    let step = state.plan_query_given(true);
    assert_eq!(step, QueryStep::Run("red".to_owned()));
    state.finish_query(Ok(vec![dummy_hit(), dummy_hit()]));
    assert!(!state.hits.is_empty());
    assert_eq!(state.last_compiled.as_deref(), Some("red"));
    assert!(state.last_keystroke.is_none(), "last_keystroke should be cleared");
}

#[test]
fn maybe_run_query_with_short_input_clears_hits() {
    let mut state = SearchDialogState::new();
    state.hits = vec![dummy_hit()];
    handle_key(&mut state, key(KeyCode::Char('a')));
    handle_key(&mut state, key(KeyCode::Char('b')));
    assert_eq!(state.plan_query_given(true), QueryStep::Cleared);
    assert!(state.hits.is_empty());
    assert_eq!(state.last_compiled.as_deref(), Some("ab"));
}

#[test]
fn maybe_run_query_skips_within_debounce_window() {
    let mut state = SearchDialogState::new();
    for c in "redact".chars() {
        handle_key(&mut state, key(KeyCode::Char(c)));
    }
    assert_eq!(state.plan_query_given(false), QueryStep::Idle);
    assert!(state.hits.is_empty(), "should not run within debounce window");
    assert!(state.last_keystroke.is_some(), "last_keystroke must NOT be cleared");
}

#[test]
fn maybe_run_query_skips_when_input_unchanged() {
    let mut state = SearchDialogState::new();
    for c in "redact".chars() {
        handle_key(&mut state, key(KeyCode::Char(c)));
    }
    state.last_compiled = Some("redact".into());
    assert_eq!(state.plan_query_given(true), QueryStep::Idle);
    assert!(state.hits.is_empty(), "should not run when input matches last_compiled");
}

#[test]
fn query_error_and_selection_clamp() {
    let mut state = SearchDialogState::new();
    state.selected = 7;
    state.finish_query(Ok(vec![dummy_hit(), dummy_hit()]));
    assert_eq!(state.selected, 1);
    state.finish_query(Err("syntax error".to_owned()));
    assert_eq!(state.error.as_deref(), Some("syntax error"));
    assert_eq!(state.empty_message(), "syntax error");
    let fresh = SearchDialogState::new();
    assert_eq!(fresh.empty_message(), "type at least 3 characters");
    assert!(!fresh.ready_for_query(std::time::Instant::now()));
}

#[test]
fn columns_and_snippets() {
    assert_eq!(trunc("Session", 20), "Session");
    assert_eq!(trunc("abcdef", 4), "abc\u{2026}");
    assert_eq!(collapse_newlines("a\nb\r\nc"), "a b  c");
    assert_eq!(
        highlight_segments("x \u{1}hit\u{2} y"),
        vec![
            HighlightSegment { text: "x ".into(), highlighted: false },
            HighlightSegment { text: "hit".into(), highlighted: true },
            HighlightSegment { text: " y".into(), highlighted: false },
        ]
    );
}

#[test]
fn preview_pane_cut_and_footer() {
    assert_eq!(preview_rows(3, 10), (10, None));
    assert_eq!(preview_rows(20, 10), (9, Some("... +11 more lines".to_owned())));
    assert_eq!(preview_rows(11, 10), (9, Some("... +2 more lines".to_owned())));
    assert_eq!(preview_rows(2, 2), (2, None));
    assert_eq!(preview_rows(3, 2), (1, Some("... +2 more lines".to_owned())));
    assert_eq!(preview_rows(2, 1), (0, Some("... +2 more lines".to_owned())));
    assert_eq!(preview_line_count(""), 0);
    assert_eq!(preview_line_count("a\nb"), 2);
    assert_eq!(preview_line_count("a\n"), 1);
    let many = vec!["x"; PREVIEW_LINE_CAP + 500].join("\n");
    assert_eq!(preview_line_count(&many), PREVIEW_LINE_CAP + 1);
}

#[test]
fn queries_wait_for_a_pause_of_one_hundred_fifty_milliseconds() {
    assert!(!debounce_passed(149));
    assert!(debounce_passed(150));
    let mut s = SearchDialogState::new();
    assert!(!s.ready_after(1000));
    s.input = "abc".to_owned();
    s.last_keystroke = Some(std::time::Instant::now());
    assert!(!s.ready_after(100));
    assert!(s.ready_after(150));
    s.last_compiled = Some("abc".to_owned());
    assert!(!s.ready_after(1000));
}
