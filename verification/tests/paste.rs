use libllm_tui::focus::Focus;
use libllm_tui::paste::{clean_pasted_path, file_drop_target, format_at_token, text_paste_target, FileDropTarget, TextPasteTarget};

#[test]
fn pasted_paths_are_trimmed_and_unquoted() {
    assert_eq!(clean_pasted_path("  /tmp/a.md \n"), "/tmp/a.md");
    assert_eq!(clean_pasted_path("\"/tmp/my file.md\""), "/tmp/my file.md");
    assert_eq!(clean_pasted_path(" '/tmp/x' "), "/tmp/x");
    assert_eq!(clean_pasted_path("\"/tmp/x'"), "\"/tmp/x'");
    assert_eq!(clean_pasted_path("\"\""), "");
}

#[test]
fn at_tokens_quote_spaced_paths() {
    assert_eq!(format_at_token("/tmp/plain.md"), "@/tmp/plain.md");
    assert_eq!(format_at_token("/tmp/Lecture 29 notes.md"), "@\"/tmp/Lecture 29 notes.md\"");
    assert_eq!(format_at_token("/tmp/tab\there"), "@\"/tmp/tab\there\"");
}

#[test]
fn paste_targets_by_focus() {
    assert_eq!(file_drop_target(Focus::CharacterDialog), Some(FileDropTarget::Characters));
    assert_eq!(file_drop_target(Focus::Sidebar), Some(FileDropTarget::Sessions));
    assert_eq!(file_drop_target(Focus::Input), None);
    assert_eq!(text_paste_target(Focus::Input), TextPasteTarget::Input);
    assert_eq!(text_paste_target(Focus::EditDialog), TextPasteTarget::MessageEditor);
    assert_eq!(text_paste_target(Focus::PresetEditorDialog), TextPasteTarget::FormField);
    assert_eq!(text_paste_target(Focus::Chat), TextPasteTarget::Nobody);
}
