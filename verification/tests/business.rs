use libllm_tui::business::{
    config_locked_fields_by_section, enabled_worldbook_names, non_empty, summarize_api_url,
    AuthKind, CliOverrides,
    SamplingOverridden,
};

fn names(v: &[&str]) -> Vec<String> {
    v.iter().map(|s| s.to_string()).collect()
}

fn no_overrides() -> CliOverrides {
    CliOverrides {
        api_url: None,
        template: None,
        tls_skip_verify: false,
        sampling: SamplingOverridden::default(),
        system_prompt: None,
        persona: None,
        no_summarize: false,
        auth_type: None,
        auth_basic_username: None,
        auth_basic_password: None,
        auth_bearer_token: None,
        auth_header_name: None,
        auth_header_value: None,
        auth_query_name: None,
        auth_query_value: None,
    }
}

#[test]
fn non_empty_with_content() {
    assert_eq!(non_empty("hello"), Some("hello".to_owned()));
}

#[test]
fn non_empty_empty_string() {
    assert_eq!(non_empty(""), None);
}

#[test]
fn non_empty_whitespace_only() {
    assert_eq!(non_empty("   "), None);
    assert_eq!(non_empty("\t\n"), None);
}

#[test]
fn non_empty_with_surrounding_whitespace() {
    assert_eq!(non_empty("  hello  "), Some("  hello  ".to_owned()));
}

#[test]
fn enabled_worldbook_names_session_only() {
    let session = names(&["lore_a", "lore_b"]);
    let cfg: Vec<String> = Vec::new();
    let got = enabled_worldbook_names(&session, &cfg);
    assert_eq!(got, vec!["lore_a", "lore_b"]);
}

#[test]
fn enabled_worldbook_names_config_only() {
    let session: Vec<String> = Vec::new();
    let cfg = names(&["cfg_lore"]);
    let got = enabled_worldbook_names(&session, &cfg);
    assert_eq!(got, vec!["cfg_lore"]);
}

#[test]
fn enabled_worldbook_names_merged_dedup() {
    let session = names(&["shared", "session_only"]);
    let cfg = names(&["shared", "cfg_only"]);
    let got = enabled_worldbook_names(&session, &cfg);
    assert!(got.contains(&"shared".to_owned()));
    assert!(got.contains(&"cfg_only".to_owned()));
    assert!(got.contains(&"session_only".to_owned()));
    assert_eq!(
        got.iter().filter(|n| *n == "shared").count(),
        1,
        "shared should appear exactly once"
    );
}

#[test]
fn enabled_worldbook_names_both_empty() {
    let session: Vec<String> = Vec::new();
    let cfg: Vec<String> = Vec::new();
    let got = enabled_worldbook_names(&session, &cfg);
    assert!(got.is_empty());
}

#[test]
fn enabled_worldbook_names_config_first_in_order() {
    let session = names(&["b", "x", "b", "a"]);
    let cfg = names(&["a", "c"]);
    let got = enabled_worldbook_names(&session, &cfg);
    assert_eq!(got, vec!["a", "c", "b", "x"]);
}

#[test]
fn locked_fields_none_without_overrides() {
    let locked = config_locked_fields_by_section(&no_overrides());
    assert_eq!(locked, vec![Vec::<usize>::new(); 5]);
}

#[test]
fn locked_fields_follow_overrides() {
    let mut o = no_overrides();
    o.api_url = Some("http://localhost:8080/v1".to_owned());
    o.tls_skip_verify = true;
    o.auth_type = Some(AuthKind::Bearer);
    o.sampling.top_p = true;
    o.sampling.max_tokens = true;
    let locked = config_locked_fields_by_section(&o);
    assert_eq!(locked[0], vec![0, 1, 5]);
    assert_eq!(locked[1], vec![2, 6]);
    assert!(locked[2].is_empty() && locked[3].is_empty() && locked[4].is_empty());
}

#[test]
fn locked_fields_any_auth_part_locks_auth() {
    let mut o = no_overrides();
    o.auth_query_value = Some("secret".to_owned());
    o.template = Some("chatml".to_owned());
    let locked = config_locked_fields_by_section(&o);
    assert_eq!(locked[0], vec![1, 3]);
}

#[test]
fn summarize_url_prefers_cli_then_summarization_then_main() {
    assert_eq!(
        summarize_api_url(Some("http://cli".to_owned()), Some("http://sum".to_owned()), "http://main"),
        "http://cli"
    );
    assert_eq!(summarize_api_url(None, Some("http://sum".to_owned()), "http://main"), "http://sum");
    assert_eq!(summarize_api_url(None, None, "http://main"), "http://main");
}
