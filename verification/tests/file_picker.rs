use libllm_tui::file_picker::{
    accept_file_choice, expand_at_path, split_from_parts, split_typed_path, join_path_exec, sanitize_display_name, sort_entries, FilePickerAction, FilePickerEntry,
    FilePickerState, PickerAccept,
};
use libllm_tui::keys::{KeyCode, KeyEvent, KeyModifiers};

fn k(code: KeyCode) -> KeyEvent {
    KeyEvent::new(code, KeyModifiers::none())
}

fn e(name: &str, is_dir: bool) -> FilePickerEntry {
    FilePickerEntry { name: name.to_owned(), is_dir }
}

#[test]
fn sanitize_display_name_replaces_control_chars() {
    let raw = "safe\x1b[31mBAD\x1b[0m\x07\x7f";
    let out = sanitize_display_name(raw);
    assert!(!out.contains('\x1b'));
    assert!(!out.contains('\x07'));
    assert!(!out.contains('\x7f'));
    assert!(out.contains("safe"));
    assert!(out.contains("BAD"));
}

#[test]
fn sanitize_display_name_preserves_printable_utf8() {
    let raw = "日記.md";
    assert_eq!(sanitize_display_name(raw), raw);
}

#[test]
fn refresh_entries_sorts_dirs_first() {
    let state = FilePickerState::new("/tmp/x".to_owned(), vec![e("afile.md", false), e("zdir", true)], 0, 0);
    assert_eq!(state.entries.len(), 2);
    assert_eq!(state.entries[0].name, "zdir");
    assert!(state.entries[0].is_dir);
    assert_eq!(state.entries[1].name, "afile.md");
}

#[test]
fn sort_orders_by_code_point_within_groups() {
    let sorted = sort_entries(vec![e("b", false), e("B", false), e("é", false), e("a", true), e("Z", true)]);
    let names: Vec<&str> = sorted.iter().map(|x| x.name.as_str()).collect();
    assert_eq!(names, vec!["Z", "a", "B", "b", "é"]);
}

#[test]
fn visible_filters_by_prefix() {
    let mut state = FilePickerState::new(
        "/tmp/x".to_owned(),
        vec![e("apple", false), e("apricot", false), e("banana", false)],
        0,
        0,
    );
    state.filter = "ap".to_owned();
    let visible: Vec<&str> = state.visible().into_iter().map(|i| state.entries[i].name.as_str()).collect();
    assert_eq!(visible, vec!["apple", "apricot"]);
}

#[test]
fn descend_on_directory_and_accept_on_file() {
    let mut state = FilePickerState::new("/tmp/x".to_owned(), vec![e("sub", true), e("only.txt", false)], 0, 0);
    assert_eq!(state.handle_key(k(KeyCode::Enter)), FilePickerAction::Descend("sub".to_owned()));
    state.handle_key(k(KeyCode::Down));
    assert_eq!(state.handle_key(k(KeyCode::Tab)), FilePickerAction::Accept("only.txt".to_owned()));
    state.enter_directory("/tmp/x/sub".to_owned(), vec![e("nested.txt", false)]);
    assert_eq!(state.base_dir, "/tmp/x/sub");
    assert_eq!(state.filter, "");
    assert_eq!(state.entries.len(), 1);
}

#[test]
fn descend_with_empty_entries_returns_false() {
    let mut state = FilePickerState::new("/tmp/x".to_owned(), Vec::new(), 0, 0);
    assert!(state.current().is_none());
    assert_eq!(state.handle_key(k(KeyCode::Enter)), FilePickerAction::Stay);
}

#[test]
fn typing_filters_and_backspace_goes_up() {
    let mut state = FilePickerState::new("/tmp/x".to_owned(), vec![e("ab", false), e("b", false)], 0, 0);
    assert_eq!(state.handle_key(k(KeyCode::Char('b'))), FilePickerAction::Stay);
    assert_eq!(state.filter, "b");
    assert_eq!(state.current().unwrap().name, "b");
    assert_eq!(state.handle_key(k(KeyCode::Char('/'))), FilePickerAction::Stay);
    assert_eq!(state.filter, "b");
    state.handle_key(k(KeyCode::Backspace));
    assert_eq!(state.filter, "");
    assert_eq!(state.handle_key(k(KeyCode::Backspace)), FilePickerAction::Parent);
    assert_eq!(state.handle_key(k(KeyCode::Char(' '))), FilePickerAction::Close);
    assert_eq!(state.handle_key(k(KeyCode::Esc)), FilePickerAction::Close);
}

#[test]
fn accepting_a_file_replaces_the_typed_token() {
    let lines = vec!["look at @sr now".to_owned(), "second".to_owned()];
    let r = accept_file_choice(&lines, 0, 8, "sr", "/home/u/src.rs");
    assert_eq!(
        r,
        PickerAccept::Inserted(
            vec!["look at @/home/u/src.rs now".to_owned(), "second".to_owned()],
            0,
            8 + "@/home/u/src.rs".len()
        )
    );
}

#[test]
fn accepting_a_spaced_path_quotes_it_and_stops_at_line_end() {
    let lines = vec!["é @my".to_owned()];
    let r = accept_file_choice(&lines, 0, 3, "my files", "/tmp/my file.txt");
    assert_eq!(
        r,
        PickerAccept::Inserted(vec!["é @\"/tmp/my file.txt\"".to_owned()], 0, 3 + 19)
    );
}

#[test]
fn accepting_refuses_quotes_and_missing_lines() {
    let lines = vec!["@".to_owned()];
    assert_eq!(
        accept_file_choice(&lines, 0, 0, "", "/tmp/a\"b"),
        PickerAccept::QuoteRefused("Cannot attach file: path contains quote character: /tmp/a\"b".to_owned())
    );
    assert_eq!(accept_file_choice(&lines, 3, 0, "", "/tmp/a"), PickerAccept::LineGone);
}

#[test]
fn paths_join_and_expand() {
    assert_eq!(join_path_exec("/home/u", "src"), "/home/u/src");
    assert_eq!(join_path_exec("/home/u/", "src"), "/home/u/src");
    assert_eq!(join_path_exec("", "src"), "src");
    assert_eq!(join_path_exec("/home/u", "/etc"), "/etc");
    assert_eq!(expand_at_path("~/notes.md", "/w", Some("/home/u")), "/home/u/notes.md");
    assert_eq!(expand_at_path("~", "/w", Some("/home/u")), "/home/u");
    assert_eq!(expand_at_path("~/x", "/w", None), "/w/~/x");
    assert_eq!(expand_at_path("/abs/p", "/w", Some("/home/u")), "/abs/p");
    assert_eq!(expand_at_path("rel/p", "/w", None), "/w/rel/p");
}

#[test]
fn descending_needs_a_selected_directory() {
    let s = FilePickerState::new("/tmp".to_owned(), vec![e("b.txt", false), e("a", true)], 0, 0);
    assert_eq!(s.descend_target(), Some("/tmp/a".to_owned()));
    let mut s = s;
    s.selected = 1;
    assert_eq!(s.descend_target(), None);
    s.selected = 5;
    assert_eq!(s.descend_target(), None);
}

#[test]
fn split_fragment_empty_keeps_cwd_empty_filter() {
    let (dir, filter) = split_typed_path("/tmp/work", Some("/home/u"), "");
    assert_eq!(std::path::Path::new(&dir), std::path::Path::new("/tmp/work"));
    assert_eq!(filter, "");
}

#[test]
fn split_fragment_prefix_sets_filter() {
    let (dir, filter) = split_typed_path("/tmp/work", Some("/home/u"), "no");
    assert_eq!(std::path::Path::new(&dir), std::path::Path::new("/tmp/work"));
    assert_eq!(filter, "no");
}

#[test]
fn split_fragment_trailing_slash_enters_dir() {
    let (dir, filter) = split_typed_path("/tmp/work", Some("/home/u"), "sub/");
    assert_eq!(std::path::Path::new(&dir), std::path::Path::new("/tmp/work").join("sub"));
    assert_eq!(filter, "");
}

#[test]
fn split_typed_paths_with_home_and_absolute() {
    assert_eq!(split_typed_path("/w", Some("/home/u"), "~/no"), ("/home/u".to_owned(), "no".to_owned()));
    assert_eq!(split_typed_path("/w", None, "~/no"), ("~".to_owned(), "no".to_owned()));
    assert_eq!(split_typed_path("/w", Some("/home/u"), "/etc/ho"), ("/etc".to_owned(), "ho".to_owned()));
    assert_eq!(split_typed_path("/w", Some("/home/u"), "a/b/c"), ("/w/a/b".to_owned(), "c".to_owned()));
    assert_eq!(split_typed_path("/w", Some("/home/u"), "x/.."), ("/w/x".to_owned(), "".to_owned()));
    assert_eq!(split_from_parts("/w", None, None), ("/w".to_owned(), "".to_owned()));
    assert_eq!(split_from_parts("/w", Some("/a".to_owned()), Some("b".to_owned())), ("/a".to_owned(), "b".to_owned()));
}
