use libllm_tui::input::{handle_picker_key, input_has_command_picker, parse_submission, CommandMatch, PickerOutcome, Submission};
use libllm_tui::keys::{KeyCode, KeyEvent, KeyModifiers};

fn k(code: KeyCode) -> KeyEvent {
    KeyEvent::new(code, KeyModifiers::none())
}

fn lines(v: &[&str]) -> Vec<String> {
    v.iter().map(|s| s.to_string()).collect()
}

#[test]
fn picker_shows_only_for_single_slash_word() {
    assert!(input_has_command_picker(false, &lines(&["/he"])));
    assert!(!input_has_command_picker(true, &lines(&["/he"])));
    assert!(!input_has_command_picker(false, &lines(&["/help me"])));
    assert!(!input_has_command_picker(false, &lines(&["hello"])));
    assert!(!input_has_command_picker(false, &lines(&["/a", "b"])));
    assert!(!input_has_command_picker(false, &lines(&[""])));
}

#[test]
fn submission_forms() {
    assert_eq!(parse_submission(&lines(&["  ", ""])), Submission::Empty);
    assert_eq!(parse_submission(&lines(&[" hi", "there "])), Submission::Message("hi\nthere".to_owned()));
    assert_eq!(
        parse_submission(&lines(&["/branch   2  "])),
        Submission::SlashCommand("/branch".to_owned(), "2".to_owned())
    );
    assert_eq!(parse_submission(&lines(&["/quit"])), Submission::SlashCommand("/quit".to_owned(), String::new()));
}

#[test]
fn picker_keys() {
    let matches = vec![
        CommandMatch { name: "/help".to_owned(), takes_args: false },
        CommandMatch { name: "/branch".to_owned(), takes_args: true },
    ];
    let mut sel = 0;
    assert_eq!(handle_picker_key(k(KeyCode::Down), &mut sel, &matches), PickerOutcome::Moved);
    assert_eq!(handle_picker_key(k(KeyCode::Down), &mut sel, &matches), PickerOutcome::Moved);
    assert_eq!(sel, 1);
    assert_eq!(handle_picker_key(k(KeyCode::Tab), &mut sel, &matches), PickerOutcome::Complete("/branch ".to_owned()));
    assert_eq!(sel, 0);
    assert_eq!(handle_picker_key(k(KeyCode::Enter), &mut sel, &matches), PickerOutcome::Run("/help".to_owned()));
    assert_eq!(handle_picker_key(k(KeyCode::Char('x')), &mut sel, &matches), PickerOutcome::NotHandled);
    assert_eq!(handle_picker_key(k(KeyCode::Enter), &mut sel, &[]), PickerOutcome::NotHandled);
}
