use libllm_tui::export::{export_file_name, plan_export, ExportFormat, ExportPlan};

#[test]
fn export_format_parse_accepts_aliases_in_any_case() {
    assert_eq!(ExportFormat::parse(""), Ok(ExportFormat::Html));
    assert_eq!(ExportFormat::parse("HTML"), Ok(ExportFormat::Html));
    assert_eq!(ExportFormat::parse("md"), Ok(ExportFormat::Markdown));
    assert_eq!(ExportFormat::parse("Markdown"), Ok(ExportFormat::Markdown));
    assert_eq!(ExportFormat::parse("json"), Ok(ExportFormat::Jsonl));
    assert_eq!(ExportFormat::parse("JSONL"), Ok(ExportFormat::Jsonl));
}

#[test]
fn export_format_parse_rejects_unknown_with_lowercased_name() {
    assert_eq!(
        ExportFormat::parse("PDF"),
        Err("Unknown export format: pdf. Use md, html, or jsonl".to_owned())
    );
}

#[test]
fn export_extensions() {
    assert_eq!(ExportFormat::Markdown.extension(), "md");
    assert_eq!(ExportFormat::Html.extension(), "html");
    assert_eq!(ExportFormat::Jsonl.extension(), "jsonl");
}

#[test]
fn export_file_name_joins_timestamp_and_extension() {
    assert_eq!(
        export_file_name("20240102-030405", ExportFormat::Jsonl),
        "export-20240102-030405.jsonl"
    );
}

#[test]
fn plan_export_checks_format_before_emptiness() {
    assert_eq!(
        plan_export(" xml ", 0),
        ExportPlan::BadFormat("Unknown export format: xml. Use md, html, or jsonl".to_owned())
    );
    assert_eq!(plan_export("  md ", 0), ExportPlan::NothingToExport);
    assert_eq!(plan_export("  md ", 3), ExportPlan::Write(ExportFormat::Markdown));
    assert_eq!(plan_export("", 1), ExportPlan::Write(ExportFormat::Html));
}
