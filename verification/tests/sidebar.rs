use libllm_tui::sidebar::{
    age_between, format_relative_age, new_chat_entry, prepare_sidebar_entries,
    prepare_sidebar_entries_at, SessionEntry, UnixInstant,
};

fn at(secs: i64) -> UnixInstant {
    UnixInstant { secs, nanos: 0 }
}

// 2026-04-22T12:00:00Z
const NOW: i64 = 1_776_859_200;

fn make_session_entry(display_name: &str, updated_at: Option<&str>, count: Option<usize>) -> SessionEntry {
    SessionEntry {
        id: "id".to_owned(),
        display_name: display_name.to_owned(),
        message_count: count,
        updated_at: updated_at.map(str::to_owned),
        sidebar_label: String::new(),
        sidebar_preview: None,
        is_new_chat: false,
    }
}

#[test]
fn format_relative_age_days_hours_minutes_now() {
    let now = at(NOW);
    assert_eq!(format_relative_age("2026-04-20T12:00:00Z", now).as_deref(), Some("2d"));
    assert_eq!(format_relative_age("2026-04-22T09:30:00Z", now).as_deref(), Some("2h"));
    assert_eq!(format_relative_age("2026-04-22T11:45:00Z", now).as_deref(), Some("15m"));
    assert_eq!(format_relative_age("2026-04-22T11:59:30Z", now).as_deref(), Some("now"));
}

#[test]
fn format_relative_age_unparseable_returns_none() {
    let now = at(NOW);
    assert!(format_relative_age("not-a-date", now).is_none());
    assert!(format_relative_age("", now).is_none());
}

#[test]
fn format_relative_age_honours_offsets_and_future() {
    let now = at(NOW);
    assert_eq!(format_relative_age("2026-04-22T13:00:00+02:00", now).as_deref(), Some("1h"));
    assert_eq!(format_relative_age("2026-04-23T12:00:00Z", now).as_deref(), Some("now"));
}

#[test]
fn age_between_boundaries() {
    assert_eq!(age_between(at(0), at(59)), "now");
    assert_eq!(age_between(at(0), at(60)), "1m");
    assert_eq!(age_between(at(0), at(3_599)), "59m");
    assert_eq!(age_between(at(0), at(3_600)), "1h");
    assert_eq!(age_between(at(0), at(86_399)), "23h");
    assert_eq!(age_between(at(0), at(86_400)), "1d");
    assert_eq!(age_between(UnixInstant { secs: 0, nanos: 1 }, at(60)), "now");
}

#[test]
fn prepare_sidebar_entries_preserves_new_chat_label() {
    let mut entries = vec![new_chat_entry()];
    prepare_sidebar_entries(&mut entries);
    assert_eq!(entries[0].sidebar_label, "+ New Chat");
    assert!(entries[0].sidebar_preview.is_none());
}

#[test]
fn prepare_sidebar_entries_formats_label_and_preview() {
    let mut entries = vec![make_session_entry("Alice", Some("2020-01-01T00:00:00Z"), Some(7))];
    prepare_sidebar_entries(&mut entries);
    assert!(entries[0].sidebar_label.ends_with(" • Alice"));
    assert_eq!(entries[0].sidebar_preview.as_deref(), Some("  7 messages"));
}

#[test]
fn prepare_sidebar_entries_marks_unparseable_timestamp() {
    let mut entries = vec![make_session_entry("Bob", Some("garbage"), Some(0))];
    prepare_sidebar_entries(&mut entries);
    assert_eq!(entries[0].sidebar_label, "? • Bob");
    assert_eq!(entries[0].sidebar_preview.as_deref(), Some("  0 messages"));
}

#[test]
fn prepare_sidebar_entries_at_fixed_time() {
    let mut entries = vec![
        new_chat_entry(),
        make_session_entry("Carol", Some("2026-04-22T10:00:00Z"), None),
        make_session_entry("Dan", None, Some(3)),
    ];
    prepare_sidebar_entries_at(&mut entries, at(NOW));
    assert_eq!(entries.len(), 3);
    assert_eq!(entries[0].sidebar_label, "+ New Chat");
    assert_eq!(entries[1].sidebar_label, "2h • Carol");
    assert_eq!(entries[1].sidebar_preview.as_deref(), Some("  0 messages"));
    assert_eq!(entries[2].sidebar_label, "? • Dan");
    assert_eq!(entries[2].display_name, "Dan");
}
