//! The `/config` editor's tabs as text fields, and back: each setting is shown as a
//! string; on saving, the strings are parsed, numbers clamped to their ranges (a
//! number that does not parse takes the lowest value), and fields the command line
//! locks keep the stored value. Floating-point sampling values are not handled here.

use vstd::prelude::*;
use crate::text::{
    chars_of, string_of, trim, trim_chars, decimal, decimal_int, parse_unsigned, parse_signed,
    parse_u64_chars, parse_usize_chars, parse_i64_chars, push_decimal, push_decimal_i64,
    all_digits, digits_value, digit_value, digit_char, is_ws, is_digit, skip_ws_from, back_ws_from,
    unsigned_digits, string_views,
};
use crate::business::non_empty;

verus! {

// ---------------------------------------------------------------------
// Parsing numbers
// ---------------------------------------------------------------------

pub open spec fn clamp(v: int, min: int, max: int) -> int {
    if v < min { min } else if v > max { max } else { v }
}

/// `value.trim().parse::<u32>()`, clamped to `[min, max]`, or `min` when it does not
/// parse.
pub open spec fn u32_field(value: Seq<char>, min: u32, max: u32) -> u32 {
    match parse_unsigned(trim(value), u32::MAX as nat) {
        Some(v) => clamp(v as int, min as int, max as int) as u32,
        None => min,
    }
}

/// `value.trim().parse::<usize>()`, clamped to `[min, max]`, or `min`.
pub open spec fn usize_field(value: Seq<char>, min: usize, max: usize) -> usize {
    match parse_unsigned(trim(value), usize::MAX as nat) {
        Some(v) => clamp(v as int, min as int, max as int) as usize,
        None => min,
    }
}

/// `value.parse::<i64>()` (untrimmed), clamped to `[min, max]`; `None` when it does
/// not parse.
pub open spec fn i64_field(value: Seq<char>, min: i64, max: i64) -> Option<i64> {
    match parse_signed(value, i64::MIN as int, i64::MAX as int) {
        Some(v) => Some(clamp(v, min as int, max as int) as i64),
        None => None,
    }
}

pub fn parse_u32_clamped(value: &str, min: u32, max: u32) -> (r: u32)
    requires
        min <= max,
    ensures
        r == u32_field(value@, min, max),
{
    let v = chars_of(value);
    let t = trim_chars(v.as_slice());
    match parse_u64_chars(t.as_slice()) {
        Some(n) => {
            if n > u32::MAX as u64 {
                min
            } else if n < min as u64 {
                min
            } else if n > max as u64 {
                max
            } else {
                n as u32
            }
        },
        None => min,
    }
}

pub fn parse_usize_clamped(value: &str, min: usize, max: usize) -> (r: usize)
    requires
        min <= max,
    ensures
        r == usize_field(value@, min, max),
{
    let v = chars_of(value);
    let t = trim_chars(v.as_slice());
    match parse_usize_chars(t.as_slice()) {
        Some(n) => if n < min { min } else if n > max { max } else { n },
        None => min,
    }
}

pub fn parse_i64_clamped(value: &str, min: i64, max: i64) -> (r: Option<i64>)
    requires
        min <= max,
    ensures
        r == i64_field(value@, min, max),
{
    let v = chars_of(value);
    match parse_i64_chars(v.as_slice()) {
        Some(n) => Some(if n < min { min } else if n > max { max } else { n }),
        None => None,
    }
}

pub open spec fn bool_text(b: bool) -> Seq<char> {
    if b { "true"@ } else { "false"@ }
}

fn bool_string(b: bool) -> (r: String)
    ensures
        r@ == bool_text(b),
{
    if b { String::from_str("true") } else { String::from_str("false") }
}

fn is_true(s: &str) -> (b: bool)
    ensures
        b == (s@ == "true"@),
{
    let t = String::from_str("true");
    let own = String::from_str(s);
    proof { reveal_strlit("true"); }
    own == t
}

fn decimal_text(n: u64) -> (s: String)
    ensures
        s@ == decimal(n as nat),
{
    crate::text::decimal_string(n)
}

fn signed_text(n: i64) -> (s: String)
    ensures
        s@ == decimal_int(n as int),
{
    let mut v: Vec<char> = Vec::new();
    push_decimal_i64(&mut v, n);
    assert(v@ =~= decimal_int(n as int));
    string_of(v.as_slice())
}

// ---------------------------------------------------------------------
// Lemmas: what is shown parses back
// ---------------------------------------------------------------------

proof fn lemma_digit_char(d: nat)
    requires
        d < 10,
    ensures
        is_digit(digit_char(d)),
        digit_value(digit_char(d)) == d,
{
}

/// The decimal rendering of `n` is digits whose value is `n`.
pub proof fn lemma_decimal_parses(n: nat)
    ensures
        decimal(n).len() > 0,
        all_digits(decimal(n)),
        digits_value(decimal(n)) == n,
    decreases n,
{
    if n >= 10 {
        lemma_decimal_parses(n / 10);
        lemma_digit_char(n % 10);
        let d = decimal(n);
        assert(d.drop_last() =~= decimal(n / 10));
        assert forall|i: int| 0 <= i < d.len() implies is_digit(#[trigger] d[i]) by {
            if i < d.len() - 1 {
                assert(d[i] == decimal(n / 10)[i]);
            }
        }
    } else {
        lemma_digit_char(n);
        reveal_with_fuel(digits_value, 2);
    }
}

pub proof fn lemma_no_ws_trim(s: Seq<char>)
    requires
        s.len() > 0,
        !is_ws(s[0]),
        !is_ws(s.last()),
    ensures
        trim(s) == s,
{
    assert(skip_ws_from(s, 0) == 0);
    assert(back_ws_from(s, 0, s.len() as int) == s.len());
    assert(s.subrange(0, s.len() as int) =~= s);
}

/// A number shown in a field reads back as itself.
pub proof fn lemma_unsigned_round_trip(n: nat, max: nat)
    requires
        n <= max,
    ensures
        trim(decimal(n)) == decimal(n),
        parse_unsigned(decimal(n), max) == Some(n),
{
    lemma_decimal_parses(n);
    let d = decimal(n);
    assert(is_digit(d[0]));
    assert(is_digit(d.last()));
    lemma_no_ws_trim(d);
    assert(unsigned_digits(d) == d);
}

/// A signed number shown in a field reads back as itself.
pub proof fn lemma_signed_round_trip(n: int, min: int, max: int)
    requires
        min <= n <= max,
    ensures
        parse_signed(decimal_int(n), min, max) == Some(n),
{
    if n < 0 {
        lemma_decimal_parses((-n) as nat);
        let s = decimal_int(n);
        assert(s.drop_first() =~= decimal((-n) as nat));
    } else {
        lemma_unsigned_round_trip(n as nat, max as nat);
        lemma_decimal_parses(n as nat);
        let d = decimal(n as nat);
        assert(is_digit(d[0]));
        assert(decimal_int(n) == d);
    }
}

// ---------------------------------------------------------------------
// The "Backup" tab
// ---------------------------------------------------------------------

/// Backup settings.
#[derive(Debug, Clone, Copy, PartialEq, Eq, Structural)]
pub struct BackupSettings {
    pub enabled: bool,
    pub keep_all_days: u32,
    pub keep_daily_days: u32,
    pub keep_weekly_days: u32,
    pub rebase_threshold_percent: u32,
    pub rebase_hard_ceiling: u32,
}

/// The fields of the "Backup" tab.
pub fn backup_fields(b: &BackupSettings) -> (v: Vec<String>)
    ensures
        v@.len() == 6,
        v@[0]@ == bool_text(b.enabled),
        v@[1]@ == decimal(b.keep_all_days as nat),
        v@[2]@ == decimal(b.keep_daily_days as nat),
        v@[3]@ == decimal(b.keep_weekly_days as nat),
        v@[4]@ == decimal(b.rebase_threshold_percent as nat),
        v@[5]@ == decimal(b.rebase_hard_ceiling as nat),
{
    vec![
        bool_string(b.enabled),
        decimal_text(b.keep_all_days as u64),
        decimal_text(b.keep_daily_days as u64),
        decimal_text(b.keep_weekly_days as u64),
        decimal_text(b.rebase_threshold_percent as u64),
        decimal_text(b.rebase_hard_ceiling as u64),
    ]
}

/// The backup settings the "Backup" tab's fields give: day counts within
/// `0..=3650`, percentages within `0..=100`.
pub fn parse_backup(f: &Vec<String>) -> (b: BackupSettings)
    requires
        f@.len() >= 6,
    ensures
        b.enabled == (f@[0]@ == "true"@),
        b.keep_all_days == u32_field(f@[1]@, 0, 3650),
        b.keep_daily_days == u32_field(f@[2]@, 0, 3650),
        b.keep_weekly_days == u32_field(f@[3]@, 0, 3650),
        b.rebase_threshold_percent == u32_field(f@[4]@, 0, 100),
        b.rebase_hard_ceiling == u32_field(f@[5]@, 0, 100),
{
    BackupSettings {
        enabled: is_true(f[0].as_str()),
        keep_all_days: parse_u32_clamped(f[1].as_str(), 0, 3650),
        keep_daily_days: parse_u32_clamped(f[2].as_str(), 0, 3650),
        keep_weekly_days: parse_u32_clamped(f[3].as_str(), 0, 3650),
        rebase_threshold_percent: parse_u32_clamped(f[4].as_str(), 0, 100),
        rebase_hard_ceiling: parse_u32_clamped(f[5].as_str(), 0, 100),
    }
}

proof fn lemma_u32_round_trip(n: u32, min: u32, max: u32)
    requires
        min <= n <= max,
    ensures
        u32_field(decimal(n as nat), min, max) == n,
{
    lemma_unsigned_round_trip(n as nat, u32::MAX as nat);
}

proof fn lemma_usize_round_trip(n: usize, min: usize, max: usize)
    requires
        min <= n <= max,
    ensures
        usize_field(decimal(n as nat), min, max) == n,
{
    lemma_unsigned_round_trip(n as nat, usize::MAX as nat);
}

proof fn lemma_bool_round_trip(b: bool)
    ensures
        (bool_text(b) == "true"@) == b,
{
    reveal_strlit("true");
    reveal_strlit("false");
    if !b {
        assert(bool_text(b)[0] != "true"@[0]);
    }
}

/// Saving the "Backup" tab unchanged gives back the settings it showed, as long as
/// they lie within the tab's ranges.
pub proof fn law_backup_round_trip(b: BackupSettings, f: Seq<Seq<char>>, back: BackupSettings)
    requires
        b.keep_all_days <= 3650,
        b.keep_daily_days <= 3650,
        b.keep_weekly_days <= 3650,
        b.rebase_threshold_percent <= 100,
        b.rebase_hard_ceiling <= 100,
        f.len() == 6,
        f[0] == bool_text(b.enabled),
        f[1] == decimal(b.keep_all_days as nat),
        f[2] == decimal(b.keep_daily_days as nat),
        f[3] == decimal(b.keep_weekly_days as nat),
        f[4] == decimal(b.rebase_threshold_percent as nat),
        f[5] == decimal(b.rebase_hard_ceiling as nat),
        back.enabled == (f[0] == "true"@),
        back.keep_all_days == u32_field(f[1], 0, 3650),
        back.keep_daily_days == u32_field(f[2], 0, 3650),
        back.keep_weekly_days == u32_field(f[3], 0, 3650),
        back.rebase_threshold_percent == u32_field(f[4], 0, 100),
        back.rebase_hard_ceiling == u32_field(f[5], 0, 100),
    ensures
        back == b,
{
    lemma_bool_round_trip(b.enabled);
    lemma_u32_round_trip(b.keep_all_days, 0, 3650);
    lemma_u32_round_trip(b.keep_daily_days, 0, 3650);
    lemma_u32_round_trip(b.keep_weekly_days, 0, 3650);
    lemma_u32_round_trip(b.rebase_threshold_percent, 0, 100);
    lemma_u32_round_trip(b.rebase_hard_ceiling, 0, 100);
}

// ---------------------------------------------------------------------
// The "Summarization" tab
// ---------------------------------------------------------------------

/// Settings of the summaries of older messages.
#[derive(Debug, Clone)]
pub struct SummarizationSettings {
    pub enabled: bool,
    pub api_url: Option<String>,
    pub context_size: usize,
    pub trigger_threshold: usize,
    pub keep_last: usize,
    pub prompt: String,
}

/// The fields of the "Summarization" tab.
pub fn summarization_fields(s: &SummarizationSettings) -> (v: Vec<String>)
    ensures
        v@.len() == 6,
        v@[0]@ == bool_text(s.enabled),
        v@[1]@ == (match s.api_url { Some(u) => u@, None => Seq::<char>::empty() }),
        v@[2]@ == decimal(s.context_size as nat),
        v@[3]@ == decimal(s.trigger_threshold as nat),
        v@[4]@ == decimal(s.keep_last as nat),
        v@[5]@ == s.prompt@,
{
    let url = match &s.api_url {
        Some(u) => u.clone(),
        None => String::new(),
    };
    vec![
        bool_string(s.enabled),
        url,
        decimal_text(s.context_size as u64),
        decimal_text(s.trigger_threshold as u64),
        decimal_text(s.keep_last as u64),
        s.prompt.clone(),
    ]
}

/// The summarization settings the tab's fields give: a blank URL means the chat's
/// own server; the context size lies within `512..=max_context`, the trigger and the
/// number of messages kept within `1..=100`.
pub fn parse_summarization(f: &Vec<String>, max_context: usize) -> (s: SummarizationSettings)
    requires
        f@.len() >= 6,
        512 <= max_context,
    ensures
        s.enabled == (f@[0]@ == "true"@),
        (s.api_url is None) == (trim(f@[1]@).len() == 0),
        s.api_url matches Some(u) ==> u@ == f@[1]@,
        s.context_size == usize_field(f@[2]@, 512, max_context),
        s.trigger_threshold == usize_field(f@[3]@, 1, 100),
        s.keep_last == usize_field(f@[4]@, 1, 100),
        s.prompt@ == f@[5]@,
{
    SummarizationSettings {
        enabled: is_true(f[0].as_str()),
        api_url: non_empty(f[1].as_str()),
        context_size: parse_usize_clamped(f[2].as_str(), 512, max_context),
        trigger_threshold: parse_usize_clamped(f[3].as_str(), 1, 100),
        keep_last: parse_usize_clamped(f[4].as_str(), 1, 100),
        prompt: f[5].clone(),
    }
}

/// Saving the "Summarization" tab unchanged gives back the settings it showed, as
/// long as they lie within the tab's ranges and a set URL is not blank.
pub proof fn law_summarization_round_trip(s: SummarizationSettings, max_context: usize, f: Seq<Seq<char>>, back: SummarizationSettings)
    requires
        512 <= s.context_size <= max_context,
        1 <= s.trigger_threshold <= 100,
        1 <= s.keep_last <= 100,
        s.api_url matches Some(u) ==> trim(u@).len() > 0,
        f.len() == 6,
        f[0] == bool_text(s.enabled),
        f[1] == (match s.api_url { Some(u) => u@, None => Seq::<char>::empty() }),
        f[2] == decimal(s.context_size as nat),
        f[3] == decimal(s.trigger_threshold as nat),
        f[4] == decimal(s.keep_last as nat),
        f[5] == s.prompt@,
        back.enabled == (f[0] == "true"@),
        (back.api_url is None) == (trim(f[1]).len() == 0),
        back.api_url matches Some(u) ==> u@ == f[1],
        back.context_size == usize_field(f[2], 512, max_context),
        back.trigger_threshold == usize_field(f[3], 1, 100),
        back.keep_last == usize_field(f[4], 1, 100),
        back.prompt@ == f[5],
    ensures
        back.enabled == s.enabled,
        back.context_size == s.context_size,
        back.trigger_threshold == s.trigger_threshold,
        back.keep_last == s.keep_last,
        back.prompt@ == s.prompt@,
        (back.api_url is None) == (s.api_url is None),
        back.api_url matches Some(u) ==> u@ == s.api_url->0@,
{
    lemma_bool_round_trip(s.enabled);
    lemma_usize_round_trip(s.context_size, 512, max_context);
    lemma_usize_round_trip(s.trigger_threshold, 1, 100);
    lemma_usize_round_trip(s.keep_last, 1, 100);
    if s.api_url is None {
        assert(trim(Seq::<char>::empty()).len() == 0);
    }
}

// ---------------------------------------------------------------------
// The "Files" tab
// ---------------------------------------------------------------------

/// When attached files are summarized.
#[derive(Debug, Clone, Copy, PartialEq, Eq, Structural)]
pub enum SummarizeMode {
    Eager,
    Lazy,
}

/// Settings of attached files.
#[derive(Debug, Clone)]
pub struct FilesSettings {
    pub enabled: bool,
    pub per_file_bytes: usize,
    pub per_message_bytes: usize,
    pub summarize_mode: SummarizeMode,
    pub summary_prompt: String,
}

pub open spec fn mode_text(m: SummarizeMode) -> Seq<char> {
    match m {
        SummarizeMode::Eager => "eager"@,
        SummarizeMode::Lazy => "lazy"@,
    }
}

/// The fields of the "Files" tab.
pub fn files_fields(s: &FilesSettings) -> (v: Vec<String>)
    ensures
        v@.len() == 5,
        v@[0]@ == bool_text(s.enabled),
        v@[1]@ == decimal(s.per_file_bytes as nat),
        v@[2]@ == decimal(s.per_message_bytes as nat),
        v@[3]@ == mode_text(s.summarize_mode),
        v@[4]@ == s.summary_prompt@,
{
    let mode = match s.summarize_mode {
        SummarizeMode::Eager => String::from_str("eager"),
        SummarizeMode::Lazy => String::from_str("lazy"),
    };
    vec![
        bool_string(s.enabled),
        decimal_text(s.per_file_bytes as u64),
        decimal_text(s.per_message_bytes as u64),
        mode,
        s.summary_prompt.clone(),
    ]
}

/// The file settings the tab's fields give: `lazy` picks lazy summaries (anything
/// else eager), and a missing prompt field keeps `default_prompt`.
pub fn parse_files(f: &Vec<String>, default_prompt: &str) -> (s: FilesSettings)
    requires
        f@.len() >= 3,
    ensures
        s.enabled == (f@[0]@ == "true"@),
        s.per_file_bytes == usize_field(f@[1]@, 0, usize::MAX),
        s.per_message_bytes == usize_field(f@[2]@, 0, usize::MAX),
        s.summarize_mode == (if f@.len() > 3 && f@[3]@ == "lazy"@ { SummarizeMode::Lazy } else { SummarizeMode::Eager }),
        s.summary_prompt@ == (if f@.len() > 4 { f@[4]@ } else { default_prompt@ }),
{
    let mode = if f.len() > 3 && String::from_str(f[3].as_str()) == String::from_str("lazy") {
        SummarizeMode::Lazy
    } else {
        SummarizeMode::Eager
    };
    let prompt = if f.len() > 4 { f[4].clone() } else { String::from_str(default_prompt) };
    FilesSettings {
        enabled: is_true(f[0].as_str()),
        per_file_bytes: parse_usize_clamped(f[1].as_str(), 0, usize::MAX),
        per_message_bytes: parse_usize_clamped(f[2].as_str(), 0, usize::MAX),
        summarize_mode: mode,
        summary_prompt: prompt,
    }
}

/// Saving the "Files" tab unchanged gives back the settings it showed, the summary
/// mode and prompt included.
pub proof fn law_files_round_trip(s: FilesSettings, default_prompt: Seq<char>, f: Seq<Seq<char>>, back: FilesSettings)
    requires
        f.len() == 5,
        f[0] == bool_text(s.enabled),
        f[1] == decimal(s.per_file_bytes as nat),
        f[2] == decimal(s.per_message_bytes as nat),
        f[3] == mode_text(s.summarize_mode),
        f[4] == s.summary_prompt@,
        back.enabled == (f[0] == "true"@),
        back.per_file_bytes == usize_field(f[1], 0, usize::MAX),
        back.per_message_bytes == usize_field(f[2], 0, usize::MAX),
        back.summarize_mode == (if f.len() > 3 && f[3] == "lazy"@ { SummarizeMode::Lazy } else { SummarizeMode::Eager }),
        back.summary_prompt@ == (if f.len() > 4 { f[4] } else { default_prompt }),
    ensures
        back.enabled == s.enabled,
        back.per_file_bytes == s.per_file_bytes,
        back.per_message_bytes == s.per_message_bytes,
        back.summarize_mode == s.summarize_mode,
        back.summary_prompt@ == s.summary_prompt@,
{
    lemma_bool_round_trip(s.enabled);
    lemma_usize_round_trip(s.per_file_bytes, 0, usize::MAX);
    lemma_usize_round_trip(s.per_message_bytes, 0, usize::MAX);
    reveal_strlit("lazy");
    reveal_strlit("eager");
    if s.summarize_mode == SummarizeMode::Eager {
        assert(mode_text(s.summarize_mode)[0] != "lazy"@[0]);
    }
}

// ---------------------------------------------------------------------
// The "General" tab and the whole-number sampling values
// ---------------------------------------------------------------------

/// Whether the lock list `locked` holds field `i`.
pub fn has_index(locked: &Vec<usize>, i: usize) -> (b: bool)
    ensures
        b == locked@.contains(i),
{
    let mut k: usize = 0;
    while k < locked.len()
        invariant
            k <= locked@.len(),
            forall|j: int| 0 <= j < k ==> locked@[j] != i,
        decreases locked.len() - k,
    {
        if locked[k] == i {
            return true;
        }
        k = k + 1;
    }
    false
}

/// The general connection settings.
#[derive(Debug, Clone)]
pub struct GeneralSettings {
    pub api_url: Option<String>,
    pub template_preset: Option<String>,
    pub instruct_preset: Option<String>,
    pub reasoning_preset: Option<String>,
    pub tls_skip_verify: bool,
}

pub open spec fn or_else(a: Option<String>, b: Seq<char>) -> Seq<char> {
    match a { Some(s) => s@, None => b }
}

fn text_or(a: &Option<String>, b: &str) -> (r: String)
    ensures
        r@ == or_else(*a, b@),
{
    match a {
        Some(s) => s.clone(),
        None => String::from_str(b),
    }
}

/// The fields of the "General" tab: the server URL (the command line's, else the
/// stored one, else `default_api_url`), the authentication's label, the template
/// preset (`Default`), the instruct preset (the command line's template, else the
/// stored one, else `Mistral V3-Tekken`), the reasoning preset (`OFF`), and whether
/// TLS verification is skipped (always when the command line says so).
pub fn general_fields(g: &GeneralSettings, cli_api_url: &Option<String>, cli_template: &Option<String>, cli_tls_skip: bool, default_api_url: &str, auth_label: &str) -> (v: Vec<String>)
    ensures
        v@.len() == 6,
        v@[0]@ == or_else(*cli_api_url, or_else(g.api_url, default_api_url@)),
        v@[1]@ == auth_label@,
        v@[2]@ == or_else(g.template_preset, "Default"@),
        v@[3]@ == or_else(*cli_template, or_else(g.instruct_preset, "Mistral V3-Tekken"@)),
        v@[4]@ == or_else(g.reasoning_preset, "OFF"@),
        v@[5]@ == bool_text(cli_tls_skip || g.tls_skip_verify),
{
    let api = match cli_api_url {
        Some(u) => u.clone(),
        None => text_or(&g.api_url, default_api_url),
    };
    let instruct = match cli_template {
        Some(t) => t.clone(),
        None => text_or(&g.instruct_preset, "Mistral V3-Tekken"),
    };
    vec![
        api,
        String::from_str(auth_label),
        text_or(&g.template_preset, "Default"),
        instruct,
        text_or(&g.reasoning_preset, "OFF"),
        bool_string(cli_tls_skip || g.tls_skip_verify),
    ]
}

/// Whether `s` reads `OFF`, ignoring ASCII case.
pub open spec fn reads_off(s: Seq<char>) -> bool {
    &&& s.len() == 3
    &&& (s[0] == 'o' || s[0] == 'O')
    &&& (s[1] == 'f' || s[1] == 'F')
    &&& (s[2] == 'f' || s[2] == 'F')
}

fn is_off(s: &String) -> (b: bool)
    ensures
        b == reads_off(s@),
{
    let v = chars_of(s.as_str());
    v.len() == 3 && (v[0] == 'o' || v[0] == 'O') && (v[1] == 'f' || v[1] == 'F') && (v[2] == 'f' || v[2] == 'F')
}

pub open spec fn opt_view(o: Option<String>) -> Option<Seq<char>> {
    match o { Some(s) => Some(s@), None => None }
}

/// The text of an optional field as `non_empty` reads it.
pub open spec fn field_text(s: Seq<char>) -> Option<Seq<char>> {
    if trim(s).len() == 0 { None } else { Some(s) }
}

/// The general settings the tab's fields give. Fields in `locked` (set on the
/// command line) keep the values of `existing`; blank fields mean unset; a reasoning
/// preset reading `OFF` (in any case) means none.
pub fn parse_general(f: &Vec<String>, locked: &Vec<usize>, existing: &GeneralSettings) -> (g: GeneralSettings)
    requires
        f@.len() >= 6,
    ensures
        opt_view(g.api_url) == (if locked@.contains(0) { opt_view(existing.api_url) } else { field_text(f@[0]@) }),
        opt_view(g.template_preset) == field_text(f@[2]@),
        opt_view(g.instruct_preset) == (if locked@.contains(3) { opt_view(existing.instruct_preset) } else { field_text(f@[3]@) }),
        opt_view(g.reasoning_preset) == (if reads_off(f@[4]@) { None } else { field_text(f@[4]@) }),
        g.tls_skip_verify == (if locked@.contains(5) { existing.tls_skip_verify } else { f@[5]@ == "true"@ }),
{
    let api_url = if has_index(locked, 0) { existing.api_url.clone() } else { non_empty(f[0].as_str()) };
    let template_preset = non_empty(f[2].as_str());
    let instruct_preset = if has_index(locked, 3) { existing.instruct_preset.clone() } else { non_empty(f[3].as_str()) };
    let reasoning = non_empty(f[4].as_str());
    let reasoning_preset = match reasoning {
        Some(r) => if is_off(&r) { None } else { Some(r) },
        None => None,
    };
    let tls_skip_verify = if has_index(locked, 5) { existing.tls_skip_verify } else { is_true(f[5].as_str()) };
    proof {
        assert(opt_view(api_url) == (if locked@.contains(0) { opt_view(existing.api_url) } else { field_text(f@[0]@) }));
    }
    GeneralSettings { api_url, template_preset, instruct_preset, reasoning_preset, tls_skip_verify }
}

/// The whole-number sampling values.
#[derive(Debug, Clone, Copy, PartialEq, Eq, Structural)]
pub struct IntSampling {
    pub top_k: Option<i64>,
    pub repeat_last_n: Option<i64>,
    pub max_tokens: Option<i64>,
}

/// The field of a sampling value: the command line's, else the stored one, else the
/// default.
pub fn sampling_field(cli: Option<i64>, stored: Option<i64>, default: i64) -> (s: String)
    ensures
        s@ == decimal_int(match cli { Some(v) => v as int, None => match stored { Some(v) => v as int, None => default as int } }),
{
    let v = match cli {
        Some(v) => v,
        None => match stored { Some(v) => v, None => default },
    };
    signed_text(v)
}

/// The whole-number sampling values the "Sampling" tab's fields give (top-k at 1,
/// within `1..=100`; the repeat window at 4 and the token limit at 6, within
/// `-1..=32767`; a field that does not parse means unset). Locked fields keep the
/// values of `existing`.
pub fn parse_int_sampling(f: &Vec<String>, locked: &Vec<usize>, existing: &IntSampling) -> (s: IntSampling)
    requires
        f@.len() >= 7,
    ensures
        s.top_k == (if locked@.contains(1) { existing.top_k } else { i64_field(f@[1]@, 1, 100) }),
        s.repeat_last_n == (if locked@.contains(4) { existing.repeat_last_n } else { i64_field(f@[4]@, -1i64, 32767i64) }),
        s.max_tokens == (if locked@.contains(6) { existing.max_tokens } else { i64_field(f@[6]@, -1i64, 32767i64) }),
{
    IntSampling {
        top_k: if has_index(locked, 1) { existing.top_k } else { parse_i64_clamped(f[1].as_str(), 1, 100) },
        repeat_last_n: if has_index(locked, 4) { existing.repeat_last_n } else { parse_i64_clamped(f[4].as_str(), -1, 32767) },
        max_tokens: if has_index(locked, 6) { existing.max_tokens } else { parse_i64_clamped(f[6].as_str(), -1, 32767) },
    }
}

/// A sampling value shown and saved unchanged stays what it was, when within range.
pub proof fn law_sampling_value_round_trip(v: i64, min: i64, max: i64)
    requires
        min <= v <= max,
    ensures
        i64_field(decimal_int(v as int), min, max) == Some(v),
{
    lemma_signed_round_trip(v as int, i64::MIN as int, i64::MAX as int);
}

} // verus!
