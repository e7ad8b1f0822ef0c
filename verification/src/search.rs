//! The full-text search dialog: its input line, selection and paging over the hits,
//! when a query is due (after a pause in typing), and how hits are shown.

use vstd::prelude::*;
use crate::keys::{KeyCode, KeyEvent};
use crate::text::{
    chars_of, string_of, sub_chars, trim, trim_chars, push_str, push_decimal, decimal,
    insert_char_at, remove_char_at, char_count, has_prefix, starts_with, clamp_pos,
};
use crate::thought::instant_now;

verus! {

/// Pause in typing, in milliseconds, before a query runs.
pub const DEBOUNCE_MILLIS: u64 = 150;

/// Fewest characters (after trimming) a query needs.
pub const MIN_QUERY_CHARS: usize = 3;

/// How far Page Up and Page Down move the selection.
pub const PAGE_SIZE: usize = 10;

/// Most lines of a preview that are looked at.
pub const PREVIEW_LINE_CAP: usize = 2000;

/// A message that matches the query.
#[derive(Debug, Clone)]
pub struct SearchHit {
    pub session_id: String,
    pub session_display_name: String,
    pub message_id: i64,
    pub message_rowid: i64,
    /// The message's role, as shown.
    pub role: String,
    /// When the message was written, as RFC 3339.
    pub timestamp: String,
    /// The matching excerpt, with the matches between U+0001 and U+0002.
    pub snippet: String,
    pub preview_text: String,
}

/// The search dialog.
#[derive(Debug)]
pub struct SearchDialogState {
    pub input: String,
    /// Cursor in the input, in characters.
    pub cursor: usize,
    /// When the input last changed, if a query is pending.
    pub last_keystroke: Option<std::time::Instant>,
    /// The input the hits were last computed for.
    pub last_compiled: Option<String>,
    pub hits: Vec<SearchHit>,
    pub selected: usize,
    pub error: Option<String>,
}

/// What a key in the search dialog decides.
#[derive(Debug, Clone, Copy, PartialEq, Eq, Structural)]
pub enum SearchDialogOutcome {
    Consumed,
    Close,
    /// Jump to the selected hit.
    Submit,
}

/// The prefix that switches a query to raw FTS5 syntax.
pub open spec fn raw_prefix() -> Seq<char> {
    seq!['m', ':']
}

impl SearchDialogState {
    /// The cursor stands within the input and the input can grow by two characters.
    pub open spec fn well_formed(self) -> bool {
        self.cursor <= self.input@.len() && self.input@.len() + 2 < usize::MAX
    }

    /// An empty dialog.
    pub fn new() -> (s: Self)
        ensures
            s.input@.len() == 0,
            s.cursor == 0,
            s.last_keystroke is None,
            s.last_compiled is None,
            s.hits@.len() == 0,
            s.selected == 0,
            s.error is None,
            s.well_formed(),
    {
        SearchDialogState {
            input: String::new(),
            cursor: 0,
            last_keystroke: None,
            last_compiled: None,
            hits: Vec::new(),
            selected: 0,
            error: None,
        }
    }
}

/// Input and cursor after `k`, and whether the input was touched (which restarts the
/// pause before a query).
pub open spec fn search_edit(input: Seq<char>, cursor: usize, k: KeyEvent) -> (Seq<char>, usize, bool) {
    match k.code {
        KeyCode::Backspace => if cursor > 0 {
            (input.remove(cursor - 1), (cursor - 1) as usize, true)
        } else {
            (input, cursor, false)
        },
        KeyCode::Char(c) => if c == 'r' && k.modifiers.control {
            if starts_with(input, raw_prefix()) {
                (input.skip(2), (input.len() - 2) as usize, true)
            } else {
                (raw_prefix() + input, (cursor + 2) as usize, true)
            }
        } else if k.modifiers.control {
            (input, cursor, false)
        } else {
            (input.insert(cursor as int, c), (cursor + 1) as usize, true)
        },
        _ => (input, cursor, false),
    }
}

/// The selection after `k` among `n` hits.
pub open spec fn search_selection(sel: usize, n: nat, k: KeyCode) -> usize {
    match k {
        KeyCode::Up => if sel > 0 { (sel - 1) as usize } else { sel },
        KeyCode::Down => if n > 0 && sel + 1 < n { (sel + 1) as usize } else { sel },
        KeyCode::PageDown => if n > 0 {
            let target: int = if sel + PAGE_SIZE > usize::MAX { usize::MAX as int } else { sel + PAGE_SIZE };
            if target <= n - 1 { target as usize } else { (n - 1) as usize }
        } else {
            sel
        },
        KeyCode::PageUp => if sel >= PAGE_SIZE { (sel - PAGE_SIZE) as usize } else { 0 },
        _ => sel,
    }
}

/// Handles a key: Esc closes, Enter jumps to the selected hit, the arrows and page
/// keys move the selection, Backspace and characters edit the input, and Ctrl+R adds
/// or removes the `m:` prefix (raw FTS5 syntax). Other Ctrl keys are swallowed.
pub fn handle_key(state: &mut SearchDialogState, key: KeyEvent) -> (r: SearchDialogOutcome)
    requires
        old(state).well_formed(),
    ensures
        final(state).hits == old(state).hits,
        final(state).last_compiled == old(state).last_compiled,
        final(state).error == old(state).error,
        r == (match key.code {
            KeyCode::Esc => SearchDialogOutcome::Close,
            KeyCode::Enter => SearchDialogOutcome::Submit,
            _ => SearchDialogOutcome::Consumed,
        }),
        final(state).selected == search_selection(old(state).selected, old(state).hits@.len(), key.code),
        ({
            let (i, c, touched) = search_edit(old(state).input@, old(state).cursor, key);
            &&& final(state).input@ == i
            &&& final(state).cursor == c
            &&& (touched ==> final(state).last_keystroke is Some)
            &&& (!touched ==> final(state).last_keystroke == old(state).last_keystroke)
        }),
        final(state).well_formed() || final(state).input@.len() + 2 >= usize::MAX,
{
    let n = state.hits.len();
    match key.code {
        KeyCode::Esc => SearchDialogOutcome::Close,
        KeyCode::Enter => SearchDialogOutcome::Submit,
        KeyCode::Up => {
            if state.selected > 0 {
                state.selected = state.selected - 1;
            }
            SearchDialogOutcome::Consumed
        },
        KeyCode::Down => {
            if n > 0 && state.selected < n - 1 {
                state.selected = state.selected + 1;
            }
            SearchDialogOutcome::Consumed
        },
        KeyCode::PageDown => {
            if n > 0 {
                let target = if state.selected > usize::MAX - PAGE_SIZE {
                    usize::MAX
                } else {
                    state.selected + PAGE_SIZE
                };
                state.selected = if target <= n - 1 {
                    target
                } else {
                    n - 1
                };
            }
            SearchDialogOutcome::Consumed
        },
        KeyCode::PageUp => {
            state.selected = if state.selected >= PAGE_SIZE {
                state.selected - PAGE_SIZE
            } else {
                0
            };
            SearchDialogOutcome::Consumed
        },
        KeyCode::Backspace => {
            if state.cursor > 0 {
                state.cursor = state.cursor - 1;
                remove_char_at(&mut state.input, state.cursor);
                state.last_keystroke = Some(instant_now());
            }
            SearchDialogOutcome::Consumed
        },
        KeyCode::Char(c) => {
            if c == 'r' && key.modifiers.control {
                let v = chars_of(state.input.as_str());
                let p: Vec<char> = vec!['m', ':'];
                assert(p@ =~= raw_prefix());
                if has_prefix(v.as_slice(), p.as_slice()) {
                    let rest = sub_chars(v.as_slice(), 2, v.len());
                    assert(rest@ =~= v@.skip(2));
                    state.input = string_of(rest.as_slice());
                    state.cursor = rest.len();
                } else {
                    let mut w: Vec<char> = vec!['m', ':'];
                    crate::text::push_all(&mut w, v.as_slice());
                    state.input = string_of(w.as_slice());
                    state.cursor = state.cursor + 2;
                }
                state.last_keystroke = Some(instant_now());
                return SearchDialogOutcome::Consumed;
            }
            if key.modifiers.control {
                return SearchDialogOutcome::Consumed;
            }
            insert_char_at(&mut state.input, state.cursor, c);
            state.cursor = state.cursor + 1;
            state.last_keystroke = Some(instant_now());
            SearchDialogOutcome::Consumed
        },
        _ => SearchDialogOutcome::Consumed,
    }
}


// ---------------------------------------------------------------------
// When a query runs
// ---------------------------------------------------------------------

/// Whether typing has paused long enough for a query: `elapsed_ms` milliseconds since
/// the last keystroke, at least `DEBOUNCE_MILLIS`.
pub fn debounce_passed(elapsed_ms: u128) -> (b: bool)
    ensures
        b == (elapsed_ms >= DEBOUNCE_MILLIS),
{
    elapsed_ms >= DEBOUNCE_MILLIS as u128
}

/// Whether the input is the one the hits were computed for.
pub open spec fn same_as_compiled(s: SearchDialogState) -> bool {
    s.last_compiled matches Some(c) && c@ == s.input@
}

/// Whether a query is due, given whether the pause since the last keystroke has
/// passed: there must be a pending keystroke and an input the hits were not computed
/// for.
pub open spec fn ready_spec(s: SearchDialogState, paused: bool) -> bool {
    s.last_keystroke is Some && paused && !same_as_compiled(s)
}

fn same_compiled(s: &SearchDialogState) -> (b: bool)
    ensures
        b == same_as_compiled(*s),
{
    match &s.last_compiled {
        Some(c) => *c == s.input,
        None => false,
    }
}

impl SearchDialogState {
    /// Whether a query is due (see `ready_spec`), given whether the pause has passed.
    pub fn ready_given(&self, paused: bool) -> (r: bool)
        ensures
            r == ready_spec(*self, paused),
    {
        self.last_keystroke.is_some() && paused && !same_compiled(self)
    }

    /// Whether a query is due `elapsed_ms` milliseconds after the last keystroke: one
    /// is pending, typing has paused for `DEBOUNCE_MILLIS`, and the input differs from
    /// the one last queried.
    pub fn ready_after(&self, elapsed_ms: u128) -> (r: bool)
        ensures
            r == ready_spec(*self, elapsed_ms >= DEBOUNCE_MILLIS),
    {
        let paused = debounce_passed(elapsed_ms);
        self.ready_given(paused)
    }

    /// Whether a query is due at `now`: the clock's reading of the time since the last
    /// keystroke is handed to `ready_after`, which decides.
    pub fn ready_for_query(&self, now: std::time::Instant) -> (r: bool)
        ensures
            r ==> self.last_keystroke is Some && !same_as_compiled(*self),
            (self.last_keystroke is None || same_as_compiled(*self)) ==> !r,
    {
        match self.last_keystroke {
            Some(stamp) => {
                let ms = crate::clock::duration_as_millis(crate::clock::instant_saturating_duration_since(now, stamp));
                self.ready_after(ms)
            },
            None => false,
        }
    }
}


/// What a due query needs from the database.
#[derive(Debug, Clone, PartialEq, Eq)]
pub enum QueryStep {
    /// No query is due.
    Idle,
    /// The input is too short: the hits were cleared.
    Cleared,
    /// Compile and run this query, then hand the outcome to `finish_query`.
    Run(String),
}

impl SearchDialogState {
    /// Decides what a due query needs (`paused` says whether typing has paused long
    /// enough): nothing when none is due; when the trimmed input is under three
    /// characters, the hits are cleared and the input recorded; else the query to run.
    pub fn plan_query_given(&mut self, paused: bool) -> (r: QueryStep)
        ensures
            final(self).input == old(self).input,
            final(self).cursor == old(self).cursor,
            !ready_spec(*old(self), paused) ==> r == QueryStep::Idle && final(self).hits == old(self).hits
                && final(self).last_keystroke == old(self).last_keystroke
                && final(self).last_compiled == old(self).last_compiled
                && final(self).selected == old(self).selected && final(self).error == old(self).error,
            ready_spec(*old(self), paused) && trim(old(self).input@).len() < MIN_QUERY_CHARS ==> r
                == QueryStep::Cleared && final(self).hits@.len() == 0 && final(self).error is None
                && (final(self).last_compiled matches Some(c) && c@ == old(self).input@)
                && final(self).last_keystroke is None && final(self).selected == 0,
            ready_spec(*old(self), paused) && trim(old(self).input@).len() >= MIN_QUERY_CHARS ==> (
            r matches QueryStep::Run(q) && q@ == old(self).input@) && final(self).hits == old(self).hits
                && final(self).last_keystroke == old(self).last_keystroke
                && final(self).last_compiled == old(self).last_compiled
                && final(self).selected == old(self).selected && final(self).error == old(self).error,
    {
        if !self.ready_given(paused) {
            return QueryStep::Idle;
        }
        let v = chars_of(self.input.as_str());
        let t = trim_chars(v.as_slice());
        if t.len() < MIN_QUERY_CHARS {
            self.hits = Vec::new();
            self.error = None;
            self.last_compiled = Some(self.input.clone());
            self.last_keystroke = None;
            self.selected = 0;
            return QueryStep::Cleared;
        }
        QueryStep::Run(self.input.clone())
    }

    /// Records the outcome of a query: its hits (keeping the selection on one) or its
    /// error, and that the current input has been queried.
    pub fn finish_query(&mut self, outcome: Result<Vec<SearchHit>, String>)
        ensures
            final(self).input == old(self).input,
            final(self).cursor == old(self).cursor,
            final(self).last_compiled matches Some(c) && c@ == old(self).input@,
            final(self).last_keystroke is None,
            match outcome {
                Ok(h) => final(self).hits@ == h@ && final(self).error is None && final(self).selected == (
                if old(self).selected >= h@.len() {
                    if h@.len() == 0 { 0 } else { (h@.len() - 1) as usize }
                } else {
                    old(self).selected
                }),
                Err(e) => final(self).error == Some(e) && final(self).hits == old(self).hits
                    && final(self).selected == old(self).selected,
            },
    {
        match outcome {
            Ok(h) => {
                self.hits = h;
                self.error = None;
                if self.selected >= self.hits.len() {
                    self.selected = if self.hits.len() == 0 {
                        0
                    } else {
                        self.hits.len() - 1
                    };
                }
            },
            Err(e) => {
                self.error = Some(e);
            },
        }
        self.last_compiled = Some(self.input.clone());
        self.last_keystroke = None;
    }
}

// ---------------------------------------------------------------------
// Showing hits
// ---------------------------------------------------------------------

/// `s` when it has at most `max` characters, else its first `max - 1` characters and
/// an ellipsis.
pub open spec fn trunc_spec(s: Seq<char>, max: nat) -> Seq<char> {
    if s.len() <= max {
        s
    } else {
        s.take(if max >= 1 { max - 1 } else { 0 }).push('\u{2026}')
    }
}

/// Shortens a column value to `max` characters (see `trunc_spec`).
pub fn trunc(s: &str, max: usize) -> (r: String)
    ensures
        r@ == trunc_spec(s@, max as nat),
{
    let v = chars_of(s);
    if v.len() <= max {
        return string_of(v.as_slice());
    }
    let keep = if max >= 1 {
        max - 1
    } else {
        0
    };
    let mut out = sub_chars(v.as_slice(), 0, keep);
    out.push('\u{2026}');
    assert(v@.subrange(0, keep as int) =~= v@.take(keep as int));
    string_of(out.as_slice())
}

/// `s` with each newline and carriage return replaced by a space.
pub open spec fn collapsed(s: Seq<char>) -> Seq<char> {
    Seq::new(s.len(), |i: int| if s[i] == '\n' || s[i] == '\r' { ' ' } else { s[i] })
}

/// Puts a multi-line snippet on one line.
pub fn collapse_newlines(s: &str) -> (r: String)
    ensures
        r@ == collapsed(s@),
{
    let v = chars_of(s);
    let mut out: Vec<char> = Vec::new();
    let mut i: usize = 0;
    while i < v.len()
        invariant
            i <= v.len(),
            out@ == collapsed(v@).take(i as int),
        decreases v.len() - i,
    {
        let c = v[i];
        out.push(if c == '\n' || c == '\r' { ' ' } else { c });
        assert(out@ =~= collapsed(v@).take(i + 1));
        i = i + 1;
    }
    assert(collapsed(v@).take(i as int) =~= collapsed(v@));
    string_of(out.as_slice())
}

/// A run of snippet text and whether it is a match.
#[derive(Debug, Clone, PartialEq, Eq)]
pub struct HighlightSegment {
    pub text: String,
    pub highlighted: bool,
}

pub open spec fn segment_views(s: Seq<HighlightSegment>) -> Seq<(Seq<char>, bool)> {
    s.map_values(|x: HighlightSegment| (x.text@, x.highlighted))
}

/// The segments of `s` from index `i` on, with `buf` pending and `hl` saying whether
/// a match is open: U+0001 opens a match and U+0002 closes it; the pending text is
/// emitted (when not empty) at each marker and at the end.
pub open spec fn segments_from(s: Seq<char>, i: int, buf: Seq<char>, hl: bool) -> Seq<(Seq<char>, bool)>
    decreases s.len() - i,
{
    if i < 0 || i >= s.len() {
        if buf.len() > 0 { seq![(buf, hl)] } else { Seq::empty() }
    } else if s[i] == '\u{1}' {
        (if buf.len() > 0 { seq![(buf, false)] } else { Seq::empty() }) + segments_from(s, i + 1, Seq::empty(), true)
    } else if s[i] == '\u{2}' {
        (if buf.len() > 0 { seq![(buf, true)] } else { Seq::empty() }) + segments_from(s, i + 1, Seq::empty(), false)
    } else {
        segments_from(s, i + 1, buf.push(s[i]), hl)
    }
}

/// Splits a snippet into plain and highlighted runs (see `segments_from`). The text
/// must already be free of terminal control sequences.
pub fn highlight_segments(s: &str) -> (r: Vec<HighlightSegment>)
    ensures
        segment_views(r@) == segments_from(s@, 0, Seq::empty(), false),
{
    let v = chars_of(s);
    let mut out: Vec<HighlightSegment> = Vec::new();
    let mut buf: Vec<char> = Vec::new();
    let mut hl = false;
    let mut i: usize = 0;
    assert(segment_views(out@) =~= Seq::empty());
    while i < v.len()
        invariant
            i <= v.len(),
            v@ == s@,
            segment_views(out@) + segments_from(v@, i as int, buf@, hl) == segments_from(s@, 0, Seq::empty(), false),
        decreases v.len() - i,
    {
        let c = v[i];
        let ghost before = segment_views(out@);
        if c == '\u{1}' || c == '\u{2}' {
            let was = if c == '\u{1}' { false } else { true };
            if buf.len() > 0 {
                out.push(HighlightSegment { text: string_of(buf.as_slice()), highlighted: was });
            }
            assert(segment_views(out@) =~= before + (if buf@.len() > 0 { seq![(buf@, was)] } else { Seq::empty() }));
            buf = Vec::new();
            hl = c == '\u{1}';
        } else {
            buf.push(c);
        }
        i = i + 1;
    }
    if buf.len() > 0 {
        out.push(HighlightSegment { text: string_of(buf.as_slice()), highlighted: hl });
    }
    assert(segment_views(out@) =~= segments_from(s@, 0, Seq::empty(), false));
    out
}

/// The message shown when there are no hits: the query's error, else a request for
/// more characters, else "no matches".
pub open spec fn empty_hits_message(error: Option<String>, input: Seq<char>) -> Seq<char> {
    match error {
        Some(e) => e@,
        None => if trim(input).len() < MIN_QUERY_CHARS {
            "type at least 3 characters"@
        } else {
            "no matches"@
        },
    }
}

impl SearchDialogState {
    /// The message shown in place of the hit list when it is empty.
    pub fn empty_message(&self) -> (r: String)
        ensures
            r@ == empty_hits_message(self.error, self.input@),
    {
        match &self.error {
            Some(e) => e.clone(),
            None => {
                let v = chars_of(self.input.as_str());
                if trim_chars(v.as_slice()).len() < MIN_QUERY_CHARS {
                    String::from_str("type at least 3 characters")
                } else {
                    String::from_str("no matches")
                }
            },
        }
    }
}

/// How many lines the preview pane shows of a message with `total` lines (at most
/// `PREVIEW_LINE_CAP + 1` are counted) in `rows` rows, and the footer that says how
/// many more there are: when the message is cut, one row goes to the footer.
pub open spec fn preview_rows_spec(total: nat, rows: nat) -> (nat, Option<nat>) {
    let truncated = total > rows || total > PREVIEW_LINE_CAP;
    if truncated {
        let body: nat = {
            let r: int = if rows >= 1 { rows - 1 } else { 0 };
            if r <= PREVIEW_LINE_CAP { r as nat } else { PREVIEW_LINE_CAP as nat }
        };
        (body, Some(if total >= body { (total - body) as nat } else { 0 }))
    } else {
        (rows, None)
    }
}

/// The footer under a cut preview: `... +N more line` or `... +N more lines`.
pub open spec fn more_lines_footer(n: nat) -> Seq<char> {
    "... +"@ + decimal(n) + (if n == 1 { " more line"@ } else { " more lines"@ })
}

/// Rows of the preview body and the footer text, if the preview is cut.
pub fn preview_rows(total: usize, rows: usize) -> (r: (usize, Option<String>))
    ensures
        ({
            let (b, f) = preview_rows_spec(total as nat, rows as nat);
            &&& r.0 == b
            &&& match f {
                Some(n) => r.1 matches Some(t) && t@ == more_lines_footer(n),
                None => r.1 is None,
            }
        }),
{
    let truncated = total > rows || total > PREVIEW_LINE_CAP;
    if !truncated {
        return (rows, None);
    }
    let r = if rows >= 1 {
        rows - 1
    } else {
        0
    };
    let body = if r <= PREVIEW_LINE_CAP {
        r
    } else {
        PREVIEW_LINE_CAP
    };
    let remaining = if total >= body {
        total - body
    } else {
        0
    };
    let mut v: Vec<char> = Vec::new();
    push_str(&mut v, "... +");
    push_decimal(&mut v, remaining as u64);
    if remaining == 1 {
        push_str(&mut v, " more line");
    } else {
        push_str(&mut v, " more lines");
    }
    assert(Seq::<char>::empty() + "... +"@ =~= "... +"@);
    (body, Some(string_of(v.as_slice())))
}

/// Number of newlines in `s`.
pub open spec fn newline_count(s: Seq<char>) -> nat
    decreases s.len(),
{
    if s.len() == 0 {
        0
    } else {
        newline_count(s.drop_last()) + if s.last() == '\n' { 1nat } else { 0nat }
    }
}

/// Number of lines `str::lines` yields for `s`: one per newline, plus one for text
/// after the last newline.
pub open spec fn line_count(s: Seq<char>) -> nat {
    newline_count(s) + if s.len() > 0 && s.last() != '\n' { 1nat } else { 0nat }
}

/// Lines of a preview, counting no further than `PREVIEW_LINE_CAP + 1`.
pub fn preview_line_count(text: &str) -> (n: usize)
    ensures
        n == (if line_count(text@) <= PREVIEW_LINE_CAP + 1 { line_count(text@) } else { (PREVIEW_LINE_CAP + 1) as nat }),
{
    let v = chars_of(text);
    let mut nl: usize = 0;
    let mut i: usize = 0;
    while i < v.len()
        invariant
            i <= v.len(),
            nl == (if newline_count(v@.take(i as int)) <= PREVIEW_LINE_CAP + 1 { newline_count(v@.take(i as int)) } else { (PREVIEW_LINE_CAP + 1) as nat }),
        decreases v.len() - i,
    {
        assert(v@.take(i + 1).drop_last() =~= v@.take(i as int));
        if v[i] == '\n' && nl <= PREVIEW_LINE_CAP {
            nl = nl + 1;
        }
        i = i + 1;
    }
    assert(v@.take(i as int) =~= v@);
    let extra: usize = if v.len() > 0 && v[v.len() - 1] != '\n' { 1 } else { 0 };
    if nl + extra <= PREVIEW_LINE_CAP + 1 {
        nl + extra
    } else {
        PREVIEW_LINE_CAP + 1
    }
}

} // verus!
