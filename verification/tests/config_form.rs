use libllm_tui::config_form::{
    backup_fields, files_fields, general_fields, has_index, parse_backup, parse_files,
    parse_general, parse_i64_clamped, parse_int_sampling, parse_summarization,
    parse_u32_clamped, parse_usize_clamped, sampling_field, summarization_fields,
    BackupSettings, FilesSettings, GeneralSettings, IntSampling, SummarizationSettings,
    SummarizeMode,
};

fn strings(v: &[&str]) -> Vec<String> {
    v.iter().map(|s| s.to_string()).collect()
}

#[test]
fn numbers_are_trimmed_clamped_or_lowest() {
    assert_eq!(parse_u32_clamped(" 42 ", 0, 100), 42);
    assert_eq!(parse_u32_clamped("420", 0, 100), 100);
    assert_eq!(parse_u32_clamped("abc", 5, 100), 5);
    assert_eq!(parse_u32_clamped("-3", 0, 100), 0);
    assert_eq!(parse_u32_clamped("+7", 0, 100), 7);
    assert_eq!(parse_u32_clamped("99999999999", 0, 3650), 0);
    assert_eq!(parse_usize_clamped("100", 512, 4096), 512);
    assert_eq!(parse_usize_clamped("9000", 512, 4096), 4096);
    assert_eq!(parse_i64_clamped("-5", -1, 32767), Some(-1));
    assert_eq!(parse_i64_clamped(" 5", -1, 32767), None);
    assert_eq!(parse_i64_clamped("40", 1, 100), Some(40));
}

#[test]
fn backup_tab_round_trips() {
    let b = BackupSettings {
        enabled: true,
        keep_all_days: 7,
        keep_daily_days: 30,
        keep_weekly_days: 365,
        rebase_threshold_percent: 50,
        rebase_hard_ceiling: 90,
    };
    let f = backup_fields(&b);
    assert_eq!(f, strings(&["true", "7", "30", "365", "50", "90"]));
    assert_eq!(parse_backup(&f), b);
}

#[test]
fn summarization_tab_round_trips_and_blank_url_is_unset() {
    let s = SummarizationSettings {
        enabled: false,
        api_url: None,
        context_size: 4096,
        trigger_threshold: 3,
        keep_last: 5,
        prompt: "Summarize.".into(),
    };
    let f = summarization_fields(&s);
    assert_eq!(f, strings(&["false", "", "4096", "3", "5", "Summarize."]));
    let back = parse_summarization(&f, 32768);
    assert_eq!(back.api_url, None);
    assert_eq!((back.context_size, back.trigger_threshold, back.keep_last), (4096, 3, 5));
    let f2 = strings(&["true", "  ", "10", "0", "1000", "p"]);
    let back2 = parse_summarization(&f2, 32768);
    assert!(back2.enabled);
    assert_eq!(back2.api_url, None);
    assert_eq!((back2.context_size, back2.trigger_threshold, back2.keep_last), (512, 1, 100));
}

#[test]
fn config_editor_round_trips_files_summarize_fields() {
    let s = FilesSettings {
        enabled: true,
        per_file_bytes: 524_288,
        per_message_bytes: 4_194_304,
        summarize_mode: SummarizeMode::Lazy,
        summary_prompt: "Custom file summary prompt.".into(),
    };
    let f = files_fields(&s);
    let back = parse_files(&f, "default prompt");
    assert_eq!(back.summarize_mode, SummarizeMode::Lazy);
    assert_eq!(back.summary_prompt, "Custom file summary prompt.");
    assert_eq!((back.per_file_bytes, back.per_message_bytes), (524_288, 4_194_304));
    let short = strings(&["false", "1", "2"]);
    let back = parse_files(&short, "default prompt");
    assert_eq!(back.summarize_mode, SummarizeMode::Eager);
    assert_eq!(back.summary_prompt, "default prompt");
}

#[test]
fn general_tab_shows_overrides_and_defaults() {
    let g = GeneralSettings {
        api_url: None,
        template_preset: None,
        instruct_preset: Some("ChatML".into()),
        reasoning_preset: None,
        tls_skip_verify: false,
    };
    let f = general_fields(&g, &None, &Some("Llama".into()), true, "http://localhost:8080/v1", "Bearer");
    assert_eq!(
        f,
        strings(&["http://localhost:8080/v1", "Bearer", "Default", "Llama", "OFF", "true"])
    );
}

#[test]
fn general_tab_saves_respecting_locks() {
    let existing = GeneralSettings {
        api_url: Some("http://kept".into()),
        template_preset: None,
        instruct_preset: Some("Kept".into()),
        reasoning_preset: None,
        tls_skip_verify: true,
    };
    let f = strings(&["http://new", "Bearer", " ", "New", "off", "false"]);
    let g = parse_general(&f, &vec![0, 5], &existing);
    assert_eq!(g.api_url.as_deref(), Some("http://kept"));
    assert_eq!(g.template_preset, None);
    assert_eq!(g.instruct_preset.as_deref(), Some("New"));
    assert_eq!(g.reasoning_preset, None);
    assert!(g.tls_skip_verify);
    let g = parse_general(&f, &vec![], &existing);
    assert_eq!(g.api_url.as_deref(), Some("http://new"));
    assert!(!g.tls_skip_verify);
    assert!(has_index(&vec![1, 3], 3));
    assert!(!has_index(&vec![1, 3], 0));
}

#[test]
fn int_sampling_fields() {
    assert_eq!(sampling_field(Some(5), Some(7), 40), "5");
    assert_eq!(sampling_field(None, Some(-1), 40), "-1");
    assert_eq!(sampling_field(None, None, 40), "40");
    let existing = IntSampling { top_k: Some(40), repeat_last_n: Some(64), max_tokens: None };
    let f = strings(&["0.7", "500", "0.9", "0.05", "x", "1.1", "-7"]);
    let s = parse_int_sampling(&f, &vec![4], &existing);
    assert_eq!(s, IntSampling { top_k: Some(100), repeat_last_n: Some(64), max_tokens: Some(-1) });
}
