//! Session sidebar entries: the "New Chat" entry and the age and message-count labels.

use vstd::prelude::*;
use crate::text::{decimal, push_str, push_decimal, string_of, chars_of, all_digits, digits_value};
use crate::config_form::lemma_decimal_parses;

verus! {

/// A moment in time: whole seconds since the Unix epoch, and nanoseconds within that
/// second (below one billion).
#[derive(Debug, Clone, Copy, PartialEq, Eq, Structural)]
pub struct UnixInstant {
    pub secs: i64,
    pub nanos: u32,
}

/// Nanoseconds since the Unix epoch.
pub open spec fn instant_nanos(t: UnixInstant) -> int {
    t.secs * 1_000_000_000 + t.nanos
}

pub open spec fn valid_instant(t: UnixInstant) -> bool {
    t.nanos < 1_000_000_000
}

pub open spec fn nanos_per_minute() -> int {
    60_000_000_000
}

pub open spec fn nanos_per_hour() -> int {
    3_600_000_000_000
}

pub open spec fn nanos_per_day() -> int {
    86_400_000_000_000
}

/// How long ago something happened, `elapsed` nanoseconds before now: whole days
/// (`2d`), else whole hours (`5h`), else whole minutes (`15m`), else `now`.
pub open spec fn age_label(elapsed: int) -> Seq<char> {
    if elapsed >= nanos_per_day() {
        decimal((elapsed / nanos_per_day()) as nat) + seq!['d']
    } else if elapsed >= nanos_per_hour() {
        decimal((elapsed / nanos_per_hour()) as nat) + seq!['h']
    } else if elapsed >= nanos_per_minute() {
        decimal((elapsed / nanos_per_minute()) as nat) + seq!['m']
    } else {
        "now"@
    }
}

/// Whether `label` counts whole `unit`s of `elapsed`: decimal digits with no leading
/// zero followed by `suffix`, whose value `n` is the number of whole units elapsed
/// (`n * unit <= elapsed < (n + 1) * unit`).
pub open spec fn counts_whole_units(label: Seq<char>, suffix: char, unit: int, elapsed: int) -> bool {
    &&& label.len() >= 2
    &&& label.last() == suffix
    &&& label[0] != '0'
    &&& all_digits(label.drop_last())
    &&& digits_value(label.drop_last()) * unit <= elapsed
    &&& elapsed < (digits_value(label.drop_last()) + 1) * unit
}

/// The decimal rendering of a positive number does not start with `0`.
proof fn lemma_decimal_no_leading_zero(n: nat)
    requires
        n >= 1,
    ensures
        decimal(n)[0] != '0',
    decreases n,
{
    if n >= 10 {
        lemma_decimal_no_leading_zero(n / 10);
        lemma_decimal_parses(n / 10);
        assert(decimal(n)[0] == decimal(n / 10)[0]);
    }
}

proof fn lemma_label_counts(elapsed: int, unit: int, suffix: char)
    requires
        unit > 0,
        elapsed >= unit,
    ensures
        counts_whole_units(decimal((elapsed / unit) as nat) + seq![suffix], suffix, unit, elapsed),
{
    let q: int = elapsed / unit;
    assert(q >= 1) by (nonlinear_arith)
        requires
            unit > 0,
            elapsed >= unit,
            q == elapsed / unit,
    ;
    lemma_decimal_parses(q as nat);
    lemma_decimal_no_leading_zero(q as nat);
    let l = decimal(q as nat) + seq![suffix];
    assert(l[0] == decimal(q as nat)[0]);
    assert(l.drop_last() =~= decimal(q as nat));
    assert(q * unit <= elapsed && elapsed < (q + 1) * unit) by (nonlinear_arith)
        requires
            unit > 0,
            q == elapsed / unit,
    ;
}

/// The age label is the number of whole days elapsed followed by `d` once a day has
/// passed; else the number of whole hours and `h` once an hour has passed; else the
/// number of whole minutes and `m` once a minute has passed; else `now`.
pub proof fn law_age_label_counts_whole_units(elapsed: int)
    ensures
        elapsed >= nanos_per_day() ==> counts_whole_units(age_label(elapsed), 'd', nanos_per_day(), elapsed),
        nanos_per_hour() <= elapsed < nanos_per_day() ==> counts_whole_units(
            age_label(elapsed),
            'h',
            nanos_per_hour(),
            elapsed,
        ),
        nanos_per_minute() <= elapsed < nanos_per_hour() ==> counts_whole_units(
            age_label(elapsed),
            'm',
            nanos_per_minute(),
            elapsed,
        ),
        elapsed < nanos_per_minute() ==> age_label(elapsed) == "now"@,
{
    if elapsed >= nanos_per_day() {
        lemma_label_counts(elapsed, nanos_per_day(), 'd');
    } else if elapsed >= nanos_per_hour() {
        lemma_label_counts(elapsed, nanos_per_hour(), 'h');
    } else if elapsed >= nanos_per_minute() {
        lemma_label_counts(elapsed, nanos_per_minute(), 'm');
    }
}

/// Past a day, the older of two things never shows fewer days than the newer one.
pub proof fn law_age_days_grow(e1: int, e2: int)
    requires
        nanos_per_day() <= e1 <= e2,
    ensures
        digits_value(age_label(e1).drop_last()) <= digits_value(age_label(e2).drop_last()),
{
    law_age_label_counts_whole_units(e1);
    law_age_label_counts_whole_units(e2);
    let v1: int = digits_value(age_label(e1).drop_last()) as int;
    let v2: int = digits_value(age_label(e2).drop_last()) as int;
    let d: int = nanos_per_day();
    assert(v1 <= v2) by (nonlinear_arith)
        requires
            d > 0,
            v1 * d <= e1,
            e1 <= e2,
            e2 < (v2 + 1) * d,
    ;
}

/// The instant an RFC 3339 timestamp denotes, as `(unix seconds, nanoseconds)`, or
/// `None` when the text is not an RFC 3339 timestamp.
pub uninterp spec fn rfc3339_instant(s: Seq<char>) -> Option<(i64, u32)>;

/// `time::OffsetDateTime::parse` with the RFC 3339 format, then `unix_timestamp` and
/// `nanosecond` of the result. Claimed: the result depends on the text alone, and the
/// nanosecond part is below one billion (as `nanosecond` documents).
#[verifier::external_body]
fn parse_rfc3339(s: &str) -> (r: Option<(i64, u32)>)
    ensures
        r == rfc3339_instant(s@),
        r matches Some(p) ==> p.1 < 1_000_000_000,
{
    match time::OffsetDateTime::parse(s, &time::format_description::well_known::Rfc3339) {
        Ok(d) => Some((d.unix_timestamp(), d.nanosecond())),
        Err(_) => None,
    }
}

/// `time::OffsetDateTime::now_utc`, as unix seconds and nanoseconds. Claimed: only that
/// the nanosecond part is below one billion; the time itself is whatever the clock says.
#[verifier::external_body]
fn now_utc() -> (r: UnixInstant)
    ensures
        valid_instant(r),
{
    let d = time::OffsetDateTime::now_utc();
    UnixInstant { secs: d.unix_timestamp(), nanos: d.nanosecond() }
}

/// The age label of something that happened at `then`, seen at `now`.
pub fn age_between(then: UnixInstant, now: UnixInstant) -> (r: String)
    requires
        valid_instant(then),
        valid_instant(now),
    ensures
        r@ == age_label(instant_nanos(now) - instant_nanos(then)),
{
    let ds: i128 = now.secs as i128 - then.secs as i128;
    let dn: i128 = now.nanos as i128 - then.nanos as i128;
    assert(-18446744073709551616 < ds < 18446744073709551616);
    let elapsed: i128 = ds * 1_000_000_000 + dn;
    assert(elapsed == instant_nanos(now) - instant_nanos(then)) by (nonlinear_arith)
        requires
            ds == now.secs - then.secs,
            dn == now.nanos - then.nanos,
            elapsed == ds * 1_000_000_000 + dn,
    ;
    assert(elapsed < 18446744073709551616 * 1_000_000_000);
    let mut out: Vec<char> = Vec::new();
    if elapsed >= 86_400_000_000_000 {
        let q = elapsed / 86_400_000_000_000;
        assert(q < 18446744073709551616) by (nonlinear_arith)
            requires
                elapsed < 18446744073709551616 * 1_000_000_000,
                elapsed >= 0,
                q == elapsed / 86_400_000_000_000,
        ;
        push_decimal(&mut out, q as u64);
        out.push('d');
    } else if elapsed >= 3_600_000_000_000 {
        let q = elapsed / 3_600_000_000_000;
        assert(q < 18446744073709551616) by (nonlinear_arith)
            requires
                elapsed < 86_400_000_000_000,
                elapsed >= 0,
                q == elapsed / 3_600_000_000_000,
        ;
        push_decimal(&mut out, q as u64);
        out.push('h');
    } else if elapsed >= 60_000_000_000 {
        let q = elapsed / 60_000_000_000;
        assert(q < 18446744073709551616) by (nonlinear_arith)
            requires
                elapsed < 3_600_000_000_000,
                elapsed >= 0,
                q == elapsed / 60_000_000_000,
        ;
        push_decimal(&mut out, q as u64);
        out.push('m');
    } else {
        push_str(&mut out, "now");
    }
    string_of(out.as_slice())
}

/// The age label of an RFC 3339 timestamp seen at `now`, or `None` when the timestamp
/// does not parse.
pub fn format_relative_age(timestamp: &str, now: UnixInstant) -> (r: Option<String>)
    requires
        valid_instant(now),
    ensures
        match rfc3339_instant(timestamp@) {
            Some(p) => r matches Some(s) && s@ == age_label(
                instant_nanos(now) - instant_nanos(UnixInstant { secs: p.0, nanos: p.1 }),
            ),
            None => r is None,
        },
{
    match parse_rfc3339(timestamp) {
        Some(p) => Some(age_between(UnixInstant { secs: p.0, nanos: p.1 }, now)),
        None => None,
    }
}


// ---------------------------------------------------------------------
// Sidebar entries
// ---------------------------------------------------------------------

/// A row of the session sidebar.
#[derive(Debug, Clone)]
pub struct SessionEntry {
    pub id: String,
    pub display_name: String,
    pub message_count: Option<usize>,
    /// When the session was last changed, as an RFC 3339 timestamp.
    pub updated_at: Option<String>,
    pub sidebar_label: String,
    pub sidebar_preview: Option<String>,
    pub is_new_chat: bool,
}

/// The name and label of the entry that starts a new chat.
pub open spec fn new_chat_label() -> Seq<char> {
    "+ New Chat"@
}

/// What stands between the age and the name in a sidebar label.
pub open spec fn label_separator() -> Seq<char> {
    " • "@
}

/// The entry that starts a new chat.
pub fn new_chat_entry() -> (e: SessionEntry)
    ensures
        e.id@.len() == 0,
        e.display_name@ == new_chat_label(),
        e.message_count is None,
        e.updated_at is None,
        e.sidebar_label@ == new_chat_label(),
        e.sidebar_preview is None,
        e.is_new_chat,
{
    SessionEntry {
        id: String::new(),
        display_name: String::from_str("+ New Chat"),
        message_count: None,
        updated_at: None,
        sidebar_label: String::from_str("+ New Chat"),
        sidebar_preview: None,
        is_new_chat: true,
    }
}

/// The age part of a sidebar label: the age of the last change, or `?` when the
/// timestamp is missing or does not parse.
pub open spec fn entry_age(e: SessionEntry, now: UnixInstant) -> Seq<char> {
    match e.updated_at {
        Some(ts) => match rfc3339_instant(ts@) {
            Some(p) => age_label(
                instant_nanos(now) - instant_nanos(UnixInstant { secs: p.0, nanos: p.1 }),
            ),
            None => "?"@,
        },
        None => "?"@,
    }
}

/// The label a prepared entry shows.
pub open spec fn entry_label(e: SessionEntry, now: UnixInstant) -> Seq<char> {
    if e.is_new_chat {
        e.display_name@
    } else {
        entry_age(e, now) + label_separator() + e.display_name@
    }
}

/// The second line a prepared entry shows: `  N messages` (a new-chat entry has none).
pub open spec fn entry_preview(e: SessionEntry) -> Option<Seq<char>> {
    if e.is_new_chat {
        None
    } else {
        let n: usize = match e.message_count {
            Some(n) => n,
            None => 0,
        };
        Some("  "@ + decimal(n as nat) + " messages"@)
    }
}

/// `new_e` is `old_e` prepared for display at `now`: its label and preview set, the
/// rest unchanged.
pub open spec fn prepared(old_e: SessionEntry, new_e: SessionEntry, now: UnixInstant) -> bool {
    &&& new_e.id == old_e.id
    &&& new_e.display_name == old_e.display_name
    &&& new_e.message_count == old_e.message_count
    &&& new_e.updated_at == old_e.updated_at
    &&& new_e.is_new_chat == old_e.is_new_chat
    &&& new_e.sidebar_label@ == entry_label(old_e, now)
    &&& match (new_e.sidebar_preview, entry_preview(old_e)) {
        (Some(p), Some(q)) => p@ == q,
        (None, None) => true,
        _ => false,
    }
}

fn prepare_entry(e: SessionEntry, now: UnixInstant) -> (r: SessionEntry)
    requires
        valid_instant(now),
    ensures
        prepared(e, r, now),
{
    if e.is_new_chat {
        let label = e.display_name.clone();
        return SessionEntry { sidebar_label: label, sidebar_preview: None, ..e };
    }
    let age = match &e.updated_at {
        Some(ts) => match format_relative_age(ts.as_str(), now) {
            Some(a) => a,
            None => String::from_str("?"),
        },
        None => String::from_str("?"),
    };
    let count: usize = match e.message_count {
        Some(n) => n,
        None => 0,
    };
    let mut label: Vec<char> = chars_of(age.as_str());
    push_str(&mut label, " • ");
    push_str(&mut label, e.display_name.as_str());
    let mut preview: Vec<char> = Vec::new();
    push_str(&mut preview, "  ");
    push_decimal(&mut preview, count as u64);
    push_str(&mut preview, " messages");
    assert(Seq::<char>::empty() + "  "@ =~= "  "@);
    SessionEntry {
        sidebar_label: string_of(label.as_slice()),
        sidebar_preview: Some(string_of(preview.as_slice())),
        ..e
    }
}

/// Sets the label and preview of every entry as seen at `now`.
pub fn prepare_sidebar_entries_at(entries: &mut Vec<SessionEntry>, now: UnixInstant)
    requires
        valid_instant(now),
    ensures
        final(entries)@.len() == old(entries)@.len(),
        forall|i: int|
            0 <= i < old(entries)@.len() ==> prepared(
                #[trigger] old(entries)@[i],
                final(entries)@[i],
                now,
            ),
{
    let mut taken: Vec<SessionEntry> = Vec::new();
    std::mem::swap(&mut taken, entries);
    let ghost orig = taken@;
    let mut done: Vec<SessionEntry> = Vec::new();
    while taken.len() > 0
        invariant
            done@.len() + taken@.len() == orig.len(),
            taken@ == orig.subrange(done@.len() as int, orig.len() as int),
            valid_instant(now),
            forall|k: int| 0 <= k < done@.len() ==> prepared(#[trigger] orig[k], done@[k], now),
        decreases taken.len(),
    {
        let ghost d = done@.len();
        let e = taken.remove(0);
        assert(e == orig[d as int]);
        let p = prepare_entry(e, now);
        done.push(p);
        assert(taken@ =~= orig.subrange(done@.len() as int, orig.len() as int));
    }
    *entries = done;
}

/// Sets the label and preview of every entry as seen now.
pub fn prepare_sidebar_entries(entries: &mut Vec<SessionEntry>)
    ensures
        final(entries)@.len() == old(entries)@.len(),
        exists|now: UnixInstant|
            valid_instant(now) && forall|i: int|
                0 <= i < old(entries)@.len() ==> prepared(
                    #[trigger] old(entries)@[i],
                    final(entries)@[i],
                    now,
                ),
{
    let now = now_utc();
    prepare_sidebar_entries_at(entries, now);
}

} // verus!
