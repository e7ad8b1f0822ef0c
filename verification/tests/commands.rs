use libllm_tui::commands::{
    branch_items, branch_label, branch_preview, branch_target, check_branch, macro_command, parse_slash_command,
    passkey_command, theme_command, MacroCommand, SaveModeKind, SlashCommand, ThemeCommand,
};
use libllm_tui::status::{StatusLevel, StatusMessage};

#[test]
fn slash_commands_by_name() {
    let mut status: Option<StatusMessage> = None;
    assert_eq!(parse_slash_command("/quit", &mut status), SlashCommand::Quit);
    assert_eq!(parse_slash_command("/export", &mut status), SlashCommand::Export);
    assert_eq!(parse_slash_command("/report", &mut status), SlashCommand::Report);
    assert!(status.is_none());
    assert_eq!(parse_slash_command("/frobnicate", &mut status), SlashCommand::Unknown);
    let m = status.unwrap();
    assert_eq!(m.text, "Unknown command: /frobnicate");
    assert_eq!(m.level, StatusLevel::Warning);
}

#[test]
fn branch_targets() {
    assert_eq!(branch_target(&vec![1, 2, 3], None), Some(2));
    assert_eq!(branch_target(&vec![1], None), Some(1));
    assert_eq!(branch_target(&vec![], None), None);
    assert_eq!(branch_target(&vec![1, 2, 3], Some(7)), Some(7));
    let mut status: Option<StatusMessage> = None;
    assert!(!check_branch(None, 3, &mut status));
    assert_eq!(status.take().unwrap().text, "No messages to branch.");
    assert!(!check_branch(Some(2), 1, &mut status));
    assert_eq!(status.take().unwrap().text, "No branches at this point.");
    assert!(check_branch(Some(2), 2, &mut status));
    assert!(status.is_none());
}

#[test]
fn branch_previews() {
    assert_eq!(branch_preview("short\ntext"), "short text");
    let long = "a".repeat(70);
    assert_eq!(branch_preview(&long), format!("{}...", "a".repeat(60)));
    let exactly = "b".repeat(60);
    assert_eq!(branch_preview(&exactly), exactly);
    assert_eq!(branch_label("user", "hi\nthere"), "[user] hi there");
}

#[test]
fn passkey_command_needs_the_database() {
    let mut status: Option<StatusMessage> = None;
    assert!(passkey_command(SaveModeKind::Database, true, &mut status));
    assert!(status.is_none());
    assert!(!passkey_command(SaveModeKind::Database, false, &mut status));
    assert_eq!(status.take().unwrap().text, "Database not available.");
    assert!(!passkey_command(SaveModeKind::Off, true, &mut status));
    assert_eq!(status.take().unwrap().text, "Encryption is disabled for this session.");
    assert!(!passkey_command(SaveModeKind::PendingPasskey, true, &mut status));
    assert_eq!(status.take().unwrap().text, "Please unlock sessions first.");
}

#[test]
fn theme_command_cases() {
    let mut status: Option<StatusMessage> = None;
    assert_eq!(theme_command("  ", &mut status), ThemeCommand::OpenEditor);
    assert_eq!(theme_command(" light ", &mut status), ThemeCommand::Switch("light".into()));
    assert!(status.is_none());
    assert_eq!(theme_command("neon", &mut status), ThemeCommand::Unknown);
    let m = status.unwrap();
    assert_eq!(m.text, "Unknown theme: neon. Available: dark, light");
    assert_eq!(m.level, StatusLevel::Error);
}

#[test]
fn macro_command_cases() {
    let macros = vec![("greet".to_string(), "Hello {{1}}!".to_string()), ("x".to_string(), "{{0}}".to_string())];
    let mut status: Option<StatusMessage> = None;
    assert_eq!(macro_command("", &macros, &mut status), MacroCommand::Listed);
    assert_eq!(status.take().unwrap().text, "Available macros: greet, x");
    assert_eq!(macro_command("", &vec![], &mut status), MacroCommand::Listed);
    assert_eq!(status.take().unwrap().text, "No macros defined. Add [macros] to config.toml");
    assert_eq!(macro_command("nope a b", &macros, &mut status), MacroCommand::Unknown);
    assert_eq!(status.take().unwrap().text, "Unknown macro: nope");
    assert_eq!(macro_command(" greet world ", &macros, &mut status), MacroCommand::Send("Hello world!".into()));
    assert!(status.is_none());
    assert_eq!(macro_command("x only", &macros, &mut status), MacroCommand::Failed);
    assert_eq!(status.take().unwrap().level, StatusLevel::Error);
}

#[test]
fn branch_items_label_each_sibling_and_start_on_the_target() {
    let sib = vec![4, 9, 12];
    let roles = vec!["user".to_owned(), "user".to_owned(), "assistant".to_owned()];
    let long = "x".repeat(70);
    let contents = vec!["hi\nthere".to_owned(), long.clone(), "ok".to_owned()];
    let (items, sel) = branch_items(&sib, &roles, &contents, 9);
    assert_eq!(sel, 1);
    assert_eq!(items[0], (4, "[user] hi there".to_owned()));
    assert_eq!(items[1], (9, format!("[user] {}...", &long[..60])));
    assert_eq!(items[2], (12, "[assistant] ok".to_owned()));
    let (_, sel) = branch_items(&sib, &roles, &contents, 77);
    assert_eq!(sel, 0);
}
