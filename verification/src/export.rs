//! The `/export` command: which format was asked for, and the name of the file written.

use vstd::prelude::*;
use crate::text::{chars_of, chars_eq_str, push_str, push_all, string_of, trim, trim_chars};
use crate::theme::{lowercase, to_lowercase_string};

verus! {

/// A format the conversation can be exported in.
#[derive(Debug, Clone, Copy, PartialEq, Eq, Structural)]
pub enum ExportFormat {
    Markdown,
    Html,
    Jsonl,
}

/// The format named by `lower` (already lowercased), or the message that rejects it.
pub open spec fn export_format_spec(lower: Seq<char>) -> Result<ExportFormat, Seq<char>> {
    if lower == ""@ || lower == "html"@ {
        Ok(ExportFormat::Html)
    } else if lower == "md"@ || lower == "markdown"@ {
        Ok(ExportFormat::Markdown)
    } else if lower == "jsonl"@ || lower == "json"@ {
        Ok(ExportFormat::Jsonl)
    } else {
        Err("Unknown export format: "@ + lower + ". Use md, html, or jsonl"@)
    }
}

/// The file extension of a format.
pub open spec fn extension_spec(f: ExportFormat) -> Seq<char> {
    match f {
        ExportFormat::Markdown => "md"@,
        ExportFormat::Html => "html"@,
        ExportFormat::Jsonl => "jsonl"@,
    }
}

impl ExportFormat {
    /// The format named by `s`, compared without regard to case; an empty name means HTML.
    pub fn parse(s: &str) -> (r: Result<ExportFormat, String>)
        ensures
            match (r, export_format_spec(lowercase(s@))) {
                (Ok(f), Ok(g)) => f == g,
                (Err(m), Err(n)) => m@ == n,
                _ => false,
            },
    {
        let lower = to_lowercase_string(s);
        let v = chars_of(lower.as_str());
        let v = v.as_slice();
        if chars_eq_str(v, "") || chars_eq_str(v, "html") {
            Ok(ExportFormat::Html)
        } else if chars_eq_str(v, "md") || chars_eq_str(v, "markdown") {
            Ok(ExportFormat::Markdown)
        } else if chars_eq_str(v, "jsonl") || chars_eq_str(v, "json") {
            Ok(ExportFormat::Jsonl)
        } else {
            let mut m: Vec<char> = Vec::new();
            push_str(&mut m, "Unknown export format: ");
            push_all(&mut m, v);
            push_str(&mut m, ". Use md, html, or jsonl");
            Err(string_of(m.as_slice()))
        }
    }

    /// The file extension written for this format.
    pub fn extension(&self) -> (r: &'static str)
        ensures
            r@ == extension_spec(*self),
    {
        match self {
            ExportFormat::Markdown => "md",
            ExportFormat::Html => "html",
            ExportFormat::Jsonl => "jsonl",
        }
    }
}

/// The name of the export file: `export-`, the timestamp, a dot and the extension.
pub open spec fn export_file_name_spec(timestamp: Seq<char>, f: ExportFormat) -> Seq<char> {
    "export-"@ + timestamp + seq!['.'] + extension_spec(f)
}

/// The name of the file an export made at `timestamp` is written to.
pub fn export_file_name(timestamp: &str, format: ExportFormat) -> (r: String)
    ensures
        r@ == export_file_name_spec(timestamp@, format),
{
    let mut m: Vec<char> = Vec::new();
    push_str(&mut m, "export-");
    push_str(&mut m, timestamp);
    m.push('.');
    push_str(&mut m, format.extension());
    string_of(m.as_slice())
}

/// What `/export` does before anything is rendered or written.
#[derive(Debug, Clone, PartialEq, Eq)]
pub enum ExportPlan {
    /// Render the conversation in this format.
    Write(ExportFormat),
    /// The argument names no format: show this error.
    BadFormat(String),
    /// The conversation is empty: warn and write nothing.
    NothingToExport,
}

/// The decision of `/export <arg>` on a conversation of `message_count` messages: the
/// trimmed argument is parsed first; an empty conversation is refused after that.
pub fn plan_export(arg: &str, message_count: usize) -> (r: ExportPlan)
    ensures
        match export_format_spec(lowercase(trim(arg@))) {
            Err(msg) => r matches ExportPlan::BadFormat(m) && m@ == msg,
            Ok(f) => if message_count == 0 {
                r == ExportPlan::NothingToExport
            } else {
                r == ExportPlan::Write(f)
            },
        },
{
    let v = chars_of(arg);
    let t = trim_chars(v.as_slice());
    let ts = string_of(t.as_slice());
    match ExportFormat::parse(ts.as_str()) {
        Err(m) => ExportPlan::BadFormat(m),
        Ok(f) => {
            if message_count == 0 {
                ExportPlan::NothingToExport
            } else {
                ExportPlan::Write(f)
            }
        },
    }
}

} // verus!
