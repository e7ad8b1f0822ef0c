use libllm_tui::styled::{parse_styled_line, SpanStyle, StyledSpan};

fn span(text: &str, style: SpanStyle) -> StyledSpan {
    StyledSpan { text: text.to_owned(), style }
}

#[test]
fn at_token_at_start_is_styled() {
    let line = parse_styled_line("@notes.md please");
    let styled = line.iter().find(|s| s.text.starts_with("@"));
    let styled = styled.expect("expected a styled @ span");
    assert_eq!(styled.text, "@notes.md");
    assert_eq!(styled.style, SpanStyle::FileReference);
}

#[test]
fn at_token_mid_word_is_plain() {
    let line = parse_styled_line("email@example.com");
    for span in &line {
        assert_ne!(span.style, SpanStyle::FileReference, "mid-word @ must not be styled");
    }
}

#[test]
fn at_token_after_whitespace_is_styled() {
    let line = parse_styled_line("see @a.md and @b.md");
    let styled_count = line.iter().filter(|s| s.style == SpanStyle::FileReference).count();
    assert_eq!(styled_count, 2);
}

#[test]
fn bare_at_with_whitespace_after_is_plain() {
    let line = parse_styled_line("say @ hello");
    for span in &line {
        assert_ne!(span.style, SpanStyle::FileReference, "bare @ must not style");
    }
}

#[test]
fn existing_italic_still_works() {
    let line = parse_styled_line("plain *italic*");
    let italic = line.iter().find(|s| s.style == SpanStyle::Italic);
    assert!(italic.is_some(), "italic parsing must still work");
}

#[test]
fn existing_dialogue_still_works() {
    let line = parse_styled_line(r#"he said "hello" loudly"#);
    let dialogue = line.iter().find(|s| s.style == SpanStyle::Dialogue);
    assert!(dialogue.is_some(), "dialogue parsing must still work");
}

#[test]
fn quoted_at_token_captures_spaces_in_styled_span() {
    let line = parse_styled_line(r#"read @"Lecture 29 notes.pdf" now"#);
    let styled = line
        .iter()
        .find(|s| s.style == SpanStyle::FileReference)
        .expect("expected a styled @-token span");
    assert_eq!(styled.text, r#"@"Lecture 29 notes.pdf""#);
}

#[test]
fn quoted_at_token_does_not_trigger_dialogue_style() {
    let line = parse_styled_line(r#"read @"Lecture 29 notes.pdf""#);
    for span in &line {
        assert_ne!(span.style, SpanStyle::Dialogue, "content inside the @-quoted token must not use dialogue colour");
    }
}

#[test]
fn full_split_of_mixed_line() {
    let line = parse_styled_line(r#"a **b** *c* "d" e"#);
    assert_eq!(
        line,
        vec![
            span("a ", SpanStyle::Plain),
            span("b", SpanStyle::Bold),
            span(" ", SpanStyle::Plain),
            span("c", SpanStyle::Italic),
            span(" ", SpanStyle::Plain),
            span("\"d\"", SpanStyle::Dialogue),
            span(" e", SpanStyle::Plain),
        ]
    );
}

#[test]
fn unclosed_and_empty_markers_stay_plain() {
    assert_eq!(parse_styled_line("**"), vec![span("**", SpanStyle::Plain)]);
    assert_eq!(parse_styled_line("a ** b"), vec![span("a ** b", SpanStyle::Plain)]);
    assert_eq!(parse_styled_line("\"\" x"), vec![span("\"\" x", SpanStyle::Plain)]);
    assert_eq!(parse_styled_line(""), Vec::<StyledSpan>::new());
    assert_eq!(parse_styled_line("é*ü*"), vec![span("é", SpanStyle::Plain), span("ü", SpanStyle::Italic)]);
}
