//! The `@` file picker: its listing (directories first, then by name), the entries
//! the typed filter leaves visible, and its keys. Reading directories is the
//! caller's.

use vstd::prelude::*;
use crate::keys::{KeyCode, KeyEvent};
use crate::text::{chars_of, string_of, starts_with, has_prefix, pop_char, push_char, sub_chars, push_all, utf8_len, utf8_len_exec, is_boundary, lemma_utf8_len_prefix, string_views};
use crate::commands::{chars_in_bytes, chars_for_bytes};
use crate::paste::{at_token, format_at_token};

verus! {

/// An entry of the directory being listed.
#[derive(Debug, Clone)]
pub struct FilePickerEntry {
    pub name: String,
    pub is_dir: bool,
}

/// Whether `a` comes no later than `b` in code-point order (which is the byte order of
/// their UTF-8 encodings, the order of Rust strings).
pub open spec fn lex_le(a: Seq<char>, b: Seq<char>) -> bool
    decreases a.len(),
{
    if a.len() == 0 {
        true
    } else if b.len() == 0 {
        false
    } else if (a[0] as u32) < (b[0] as u32) {
        true
    } else if (a[0] as u32) == (b[0] as u32) {
        lex_le(a.drop_first(), b.drop_first())
    } else {
        false
    }
}

/// Listing order: directories before files, each group by name.
pub open spec fn entry_le(x: FilePickerEntry, y: FilePickerEntry) -> bool {
    (x.is_dir && !y.is_dir) || (x.is_dir == y.is_dir && lex_le(x.name@, y.name@))
}

/// Whether the entries are in listing order.
pub open spec fn sorted_entries(s: Seq<FilePickerEntry>) -> bool {
    forall|i: int, j: int| 0 <= i < j < s.len() ==> entry_le(#[trigger] s[i], #[trigger] s[j])
}

proof fn lemma_lex_total(a: Seq<char>, b: Seq<char>)
    ensures
        lex_le(a, b) || lex_le(b, a),
    decreases a.len(),
{
    if a.len() > 0 && b.len() > 0 && (a[0] as u32) == (b[0] as u32) {
        lemma_lex_total(a.drop_first(), b.drop_first());
    }
}

proof fn lemma_lex_trans(a: Seq<char>, b: Seq<char>, c: Seq<char>)
    requires
        lex_le(a, b),
        lex_le(b, c),
    ensures
        lex_le(a, c),
    decreases a.len(),
{
    if a.len() > 0 && b.len() > 0 && c.len() > 0 && (a[0] as u32) == (b[0] as u32) && (b[0]
        as u32) == (c[0] as u32) {
        lemma_lex_trans(a.drop_first(), b.drop_first(), c.drop_first());
    }
}

proof fn lemma_entry_total(x: FilePickerEntry, y: FilePickerEntry)
    ensures
        entry_le(x, y) || entry_le(y, x),
{
    lemma_lex_total(x.name@, y.name@);
}

proof fn lemma_entry_trans(x: FilePickerEntry, y: FilePickerEntry, z: FilePickerEntry)
    requires
        entry_le(x, y),
        entry_le(y, z),
    ensures
        entry_le(x, z),
{
    if x.is_dir == y.is_dir && y.is_dir == z.is_dir {
        lemma_lex_trans(x.name@, y.name@, z.name@);
    }
}

/// Whether `a` comes no later than `b` (see `lex_le`).
fn chars_le(a: &[char], b: &[char]) -> (r: bool)
    ensures
        r == lex_le(a@, b@),
{
    let mut i: usize = 0;
    assert(a@.skip(0) =~= a@);
    assert(b@.skip(0) =~= b@);
    while i < a.len() && i < b.len() && (a[i] as u32) == (b[i] as u32)
        invariant
            i <= a.len(),
            i <= b.len(),
            lex_le(a@, b@) == lex_le(a@.skip(i as int), b@.skip(i as int)),
        decreases a.len() - i,
    {
        assert(a@.skip(i as int).drop_first() =~= a@.skip(i + 1));
        assert(b@.skip(i as int).drop_first() =~= b@.skip(i + 1));
        assert(a@.skip(i as int)[0] == a@[i as int]);
        assert(b@.skip(i as int)[0] == b@[i as int]);
        i = i + 1;
    }
    if i == a.len() {
        assert(a@.skip(i as int).len() == 0);
        true
    } else if i == b.len() {
        assert(b@.skip(i as int).len() == 0);
        false
    } else {
        assert(a@.skip(i as int)[0] == a@[i as int]);
        assert(b@.skip(i as int)[0] == b@[i as int]);
        (a[i] as u32) < (b[i] as u32)
    }
}

fn entry_le_exec(x: &FilePickerEntry, y: &FilePickerEntry) -> (r: bool)
    ensures
        r == entry_le(*x, *y),
{
    if x.is_dir != y.is_dir {
        return x.is_dir;
    }
    let a = chars_of(x.name.as_str());
    let b = chars_of(y.name.as_str());
    chars_le(a.as_slice(), b.as_slice())
}

/// Puts the entries in listing order (directories first, then by name).
pub fn sort_entries(entries: Vec<FilePickerEntry>) -> (r: Vec<FilePickerEntry>)
    ensures
        sorted_entries(r@),
        r@.to_multiset() == entries@.to_multiset(),
{
    broadcast use vstd::seq_lib::group_to_multiset_ensures;
    let mut input = entries;
    let ghost orig = input@;
    let mut out: Vec<FilePickerEntry> = Vec::new();
    while input.len() > 0
        invariant
            sorted_entries(out@),
            out@.to_multiset().add(input@.to_multiset()) == orig.to_multiset(),
        decreases input.len(),
    {
        let ghost before_in = input@;
        let x = input.remove(0);
        proof {
            assert(input@ =~= before_in.remove(0));
            before_in.to_multiset_ensures();
            assert(before_in.contains(x)) by {
                assert(before_in[0] == x);
            }
        }
        let mut p: usize = 0;
        while p < out.len() && entry_le_exec(&out[p], &x)
            invariant
                p <= out.len(),
                forall|k: int| 0 <= k < p ==> entry_le(#[trigger] out@[k], x),
            decreases out.len() - p,
        {
            p = p + 1;
        }
        let ghost before = out@;
        out.insert(p, x);
        proof {
            assert forall|i: int, j: int| 0 <= i < j < out@.len() implies entry_le(#[trigger] out@[i], #[trigger] out@[j]) by {
                if i < p && j == p {
                } else if i == p && j > p {
                    let y = before[j - 1];
                    assert(out@[j] == y);
                    if p < before.len() {
                        assert(!entry_le(before[p as int], x));
                        lemma_entry_total(before[p as int], x);
                        if j - 1 > p {
                            assert(entry_le(before[p as int], y));
                            lemma_entry_trans(x, before[p as int], y);
                        }
                    }
                } else if i < p && j > p {
                    assert(out@[i] == before[i]);
                    assert(out@[j] == before[j - 1]);
                } else if j < p {
                    assert(out@[i] == before[i] && out@[j] == before[j]);
                } else {
                    assert(out@[i] == before[i - 1] && out@[j] == before[j - 1]);
                }
            }
            vstd::seq_lib::to_multiset_insert(before, p as int, x);
            assert(out@.to_multiset().add(input@.to_multiset()) =~= before.to_multiset().add(
                before_in.to_multiset(),
            ));
        }
    }
    proof {
        assert(input@ =~= Seq::<FilePickerEntry>::empty());
    }
    out
}


// ---------------------------------------------------------------------
// Visible entries
// ---------------------------------------------------------------------

/// Indices, in order, of the first `n` entries whose names start with `filter`.
pub open spec fn visible_upto(entries: Seq<FilePickerEntry>, filter: Seq<char>, n: nat) -> Seq<usize>
    decreases n,
{
    if n == 0 {
        Seq::empty()
    } else {
        let prev = visible_upto(entries, filter, (n - 1) as nat);
        if starts_with(entries[n - 1].name@, filter) {
            prev.push((n - 1) as usize)
        } else {
            prev
        }
    }
}

/// Indices, in order, of the entries whose names start with `filter`.
pub open spec fn visible_spec(entries: Seq<FilePickerEntry>, filter: Seq<char>) -> Seq<usize> {
    visible_upto(entries, filter, entries.len())
}

proof fn lemma_visible_bounds(entries: Seq<FilePickerEntry>, filter: Seq<char>, n: nat)
    requires
        n <= entries.len(),
    ensures
        visible_upto(entries, filter, n).len() <= n,
        forall|k: int| 0 <= k < visible_upto(entries, filter, n).len() ==> #[trigger] visible_upto(entries, filter, n)[k] < n,
    decreases n,
{
    if n > 0 {
        lemma_visible_bounds(entries, filter, (n - 1) as nat);
    }
}

fn visible_of(entries: &Vec<FilePickerEntry>, filter: &String) -> (r: Vec<usize>)
    ensures
        r@ == visible_spec(entries@, filter@),
{
    let f = chars_of(filter.as_str());
    let mut r: Vec<usize> = Vec::new();
    let mut i: usize = 0;
    while i < entries.len()
        invariant
            i <= entries.len(),
            f@ == filter@,
            r@ == visible_upto(entries@, filter@, i as nat),
        decreases entries.len() - i,
    {
        let name = chars_of(entries[i].name.as_str());
        if has_prefix(name.as_slice(), f.as_slice()) {
            r.push(i);
        }
        i = i + 1;
    }
    r
}

// ---------------------------------------------------------------------
// The picker
// ---------------------------------------------------------------------

/// An open file picker: the directory listed, the filter typed since the last `/`,
/// the listing, the selection among the visible entries, and where the `@` that
/// opened it stands in the input (line, byte column).
#[derive(Debug)]
pub struct FilePickerState {
    pub base_dir: String,
    pub filter: String,
    pub entries: Vec<FilePickerEntry>,
    pub selected: usize,
    pub anchor_line: usize,
    pub anchor_col: usize,
}

/// What a key in the picker asks the caller to do.
#[derive(Debug, Clone, PartialEq, Eq)]
pub enum FilePickerAction {
    /// Nothing more.
    Stay,
    /// Close the picker and return to the input.
    Close,
    /// List the selected directory, named here, in place of the current one.
    Descend(String),
    /// Put the selected file, named here, into the input and close the picker.
    Accept(String),
    /// List the parent of the current directory.
    Parent,
}

/// `char::is_control`: the Unicode control characters (category Cc).
pub open spec fn is_control(c: char) -> bool {
    (c as u32) <= 0x1F || (0x7F <= (c as u32) && (c as u32) <= 0x9F)
}

fn is_control_exec(c: char) -> (b: bool)
    ensures
        b == is_control(c),
{
    let u = c as u32;
    u <= 0x1F || (0x7F <= u && u <= 0x9F)
}

impl FilePickerState {
    /// A picker listing `entries` of `base_dir`, in listing order, with an empty filter.
    pub fn new(base_dir: String, entries: Vec<FilePickerEntry>, anchor_line: usize, anchor_col: usize) -> (s: Self)
        ensures
            s.base_dir == base_dir,
            s.filter@.len() == 0,
            sorted_entries(s.entries@),
            s.entries@.to_multiset() == entries@.to_multiset(),
            s.selected == 0,
            s.anchor_line == anchor_line,
            s.anchor_col == anchor_col,
    {
        FilePickerState {
            base_dir,
            filter: String::new(),
            entries: sort_entries(entries),
            selected: 0,
            anchor_line,
            anchor_col,
        }
    }

    /// Replaces the listing with `entries` (of the current directory), in listing
    /// order, selecting the first.
    pub fn refresh_entries(&mut self, entries: Vec<FilePickerEntry>)
        ensures
            sorted_entries(final(self).entries@),
            final(self).entries@.to_multiset() == entries@.to_multiset(),
            final(self).selected == 0,
            final(self).base_dir == old(self).base_dir,
            final(self).filter == old(self).filter,
            final(self).anchor_line == old(self).anchor_line,
            final(self).anchor_col == old(self).anchor_col,
    {
        self.entries = sort_entries(entries);
        self.selected = 0;
    }

    /// Moves to directory `dir`, listing `entries`, with the filter cleared.
    pub fn enter_directory(&mut self, dir: String, entries: Vec<FilePickerEntry>)
        ensures
            final(self).base_dir == dir,
            final(self).filter@.len() == 0,
            sorted_entries(final(self).entries@),
            final(self).entries@.to_multiset() == entries@.to_multiset(),
            final(self).selected == 0,
            final(self).anchor_line == old(self).anchor_line,
            final(self).anchor_col == old(self).anchor_col,
    {
        self.base_dir = dir;
        self.filter = String::new();
        self.refresh_entries(entries);
    }

    /// Indices of the entries whose names start with the filter.
    pub fn visible(&self) -> (r: Vec<usize>)
        ensures
            r@ == visible_spec(self.entries@, self.filter@),
    {
        visible_of(&self.entries, &self.filter)
    }

    /// The selected visible entry, if any.
    pub fn current(&self) -> (r: Option<&FilePickerEntry>)
        ensures
            ({
                let vis = visible_spec(self.entries@, self.filter@);
                if self.selected < vis.len() {
                    r == Some(&self.entries@[vis[self.selected as int] as int])
                } else {
                    r is None
                }
            }),
    {
        let vis = self.visible();
        proof {
            lemma_visible_bounds(self.entries@, self.filter@, self.entries@.len());
        }
        if self.selected < vis.len() {
            let i = vis[self.selected];
            Some(&self.entries[i])
        } else {
            None
        }
    }

    /// Handles a key: Up and Down move within the visible entries; Enter or Tab
    /// descends into the selected directory or accepts the selected file; Space or Esc
    /// closes; Backspace deletes the last filter character (or, with an empty filter,
    /// asks for the parent directory); other characters except controls and `/` are
    /// added to the filter.
    pub fn handle_key(&mut self, key: KeyEvent) -> (r: FilePickerAction)
        ensures
            final(self).base_dir == old(self).base_dir,
            final(self).entries == old(self).entries,
            final(self).anchor_line == old(self).anchor_line,
            final(self).anchor_col == old(self).anchor_col,
            ({
                let o = *old(self);
                let f = *final(self);
                let vis = visible_spec(o.entries@, o.filter@);
                let same = f.filter == o.filter && f.selected == o.selected;
                match key.code {
                    KeyCode::Up => r == FilePickerAction::Stay && f.filter == o.filter && f.selected == (
                    if vis.len() > 0 && o.selected > 0 {
                        (o.selected - 1) as usize
                    } else {
                        o.selected
                    }),
                    KeyCode::Down => r == FilePickerAction::Stay && f.filter == o.filter && f.selected == (
                    if vis.len() > 0 && o.selected + 1 < vis.len() {
                        (o.selected + 1) as usize
                    } else {
                        o.selected
                    }),
                    KeyCode::Enter | KeyCode::Tab => same && if o.selected < vis.len() {
                        let e = o.entries@[vis[o.selected as int] as int];
                        if e.is_dir {
                            r matches FilePickerAction::Descend(n) && n@ == e.name@
                        } else {
                            r matches FilePickerAction::Accept(n) && n@ == e.name@
                        }
                    } else {
                        r == FilePickerAction::Stay
                    },
                    KeyCode::Esc => r == FilePickerAction::Close && same,
                    KeyCode::Backspace => if o.filter@.len() > 0 {
                        r == FilePickerAction::Stay && f.filter@ == o.filter@.drop_last() && f.selected == 0
                    } else {
                        r == FilePickerAction::Parent && same
                    },
                    KeyCode::Char(c) => if c == ' ' {
                        r == FilePickerAction::Close && same
                    } else if !is_control(c) && c != '/' {
                        r == FilePickerAction::Stay && f.filter@ == o.filter@.push(c) && f.selected == 0
                    } else {
                        r == FilePickerAction::Stay && same
                    },
                    _ => r == FilePickerAction::Stay && same,
                }
            }),
    {
        match key.code {
            KeyCode::Up => {
                let n = self.visible().len();
                if n > 0 && self.selected > 0 {
                    self.selected = self.selected - 1;
                }
                FilePickerAction::Stay
            },
            KeyCode::Down => {
                let n = self.visible().len();
                if n > 0 && self.selected < n - 1 {
                    self.selected = self.selected + 1;
                }
                FilePickerAction::Stay
            },
            KeyCode::Enter | KeyCode::Tab => {
                match self.current() {
                    Some(e) => {
                        if e.is_dir {
                            FilePickerAction::Descend(e.name.clone())
                        } else {
                            FilePickerAction::Accept(e.name.clone())
                        }
                    },
                    None => FilePickerAction::Stay,
                }
            },
            KeyCode::Esc => FilePickerAction::Close,
            KeyCode::Backspace => {
                let n = chars_of(self.filter.as_str()).len();
                if n > 0 {
                    pop_char(&mut self.filter);
                    self.selected = 0;
                    FilePickerAction::Stay
                } else {
                    FilePickerAction::Parent
                }
            },
            KeyCode::Char(c) => {
                if c == ' ' {
                    FilePickerAction::Close
                } else if !is_control_exec(c) && c != '/' {
                    push_char(&mut self.filter, c);
                    self.selected = 0;
                    FilePickerAction::Stay
                } else {
                    FilePickerAction::Stay
                }
            },
            _ => FilePickerAction::Stay,
        }
    }
}

/// A name with every control character replaced by U+FFFD, safe to draw.
pub open spec fn sanitized(s: Seq<char>) -> Seq<char> {
    Seq::new(s.len(), |i: int| if is_control(s[i]) { '\u{FFFD}' } else { s[i] })
}

/// Replaces control characters (which could drive the terminal) by U+FFFD.
pub fn sanitize_display_name(raw: &str) -> (r: String)
    ensures
        r@ == sanitized(raw@),
{
    let v = chars_of(raw);
    let mut out: Vec<char> = Vec::new();
    let mut i: usize = 0;
    while i < v.len()
        invariant
            i <= v.len(),
            out@ == sanitized(v@).take(i as int),
        decreases v.len() - i,
    {
        let c = v[i];
        out.push(if is_control_exec(c) { '\u{FFFD}' } else { c });
        assert(out@ =~= sanitized(v@).take(i + 1));
        i = i + 1;
    }
    assert(sanitized(v@).take(i as int) =~= sanitized(v@));
    string_of(out.as_slice())
}


// ---------------------------------------------------------------------
// Putting the chosen file into the input
// ---------------------------------------------------------------------

/// What choosing a file does to the input.
#[derive(Debug, Clone, PartialEq, Eq)]
pub enum PickerAccept {
    /// The path holds a double quote and cannot be written as a token: show this
    /// warning and close the picker.
    QuoteRefused(String),
    /// The line the `@` stood on is gone: close the picker.
    LineGone,
    /// The input's new lines, and the cursor (line, byte column) after the token.
    Inserted(Vec<String>, usize, usize),
}

pub open spec fn has_double_quote(s: Seq<char>) -> bool {
    exists|i: int| 0 <= i < s.len() && s[i] == '"'
}

/// The byte at which the typed `@` token ends: past the `@` and the filter, but not
/// past the line.
pub open spec fn token_end(line: Seq<char>, anchor_col: nat, filter_bytes: nat) -> nat {
    if anchor_col + 1 + filter_bytes <= utf8_len(line) {
        anchor_col + 1 + filter_bytes
    } else {
        utf8_len(line)
    }
}

/// `line` with the bytes from `anchor_col` to the end of the typed token replaced by
/// `replacement`.
pub open spec fn spliced_line(line: Seq<char>, anchor_col: nat, filter_bytes: nat, replacement: Seq<char>) -> Seq<char> {
    line.take(chars_in_bytes(line, anchor_col)) + replacement + line.skip(
        chars_in_bytes(line, token_end(line, anchor_col, filter_bytes)),
    )
}

/// What the input must allow for the token to be put at (`anchor_line`,
/// `anchor_col`): both ends of the typed token fall on character boundaries, and the
/// byte counts fit in `usize`.
pub open spec fn splice_fits(lines: Seq<String>, anchor_line: nat, anchor_col: nat, filter: Seq<char>, path: Seq<char>) -> bool {
    anchor_line < lines.len() ==> {
        let line = lines[anchor_line as int]@;
        &&& utf8_len(line) <= usize::MAX
        &&& utf8_len(filter) <= usize::MAX
        &&& utf8_len(at_token(path)) <= usize::MAX
        &&& anchor_col + 1 + utf8_len(filter) <= usize::MAX
        &&& anchor_col + utf8_len(at_token(path)) <= usize::MAX
        &&& is_boundary(line, anchor_col)
        &&& is_boundary(line, token_end(line, anchor_col, utf8_len(filter)))
    }
}

/// Puts the chosen file, at `full_path`, into the input in place of the `@` token typed
/// at (`anchor_line`, `anchor_col`) with `filter` after it. A path with a double quote
/// is refused; a line that no longer exists closes the picker.
pub fn accept_file_choice(
    lines: &Vec<String>,
    anchor_line: usize,
    anchor_col: usize,
    filter: &str,
    full_path: &str,
) -> (r: PickerAccept)
    requires
        !has_double_quote(full_path@) ==> splice_fits(
            lines@,
            anchor_line as nat,
            anchor_col as nat,
            filter@,
            full_path@,
        ),
    ensures
        has_double_quote(full_path@) ==> (r matches PickerAccept::QuoteRefused(m) && m@
            == "Cannot attach file: path contains quote character: "@ + full_path@),
        !has_double_quote(full_path@) && anchor_line >= lines@.len() ==> r
            == PickerAccept::LineGone,
        !has_double_quote(full_path@) && anchor_line < lines@.len() ==> {
            let token = at_token(full_path@);
            let line = lines@[anchor_line as int]@;
            (r matches PickerAccept::Inserted(new_lines, cl, cc) && cl == anchor_line && cc
                == anchor_col + utf8_len(token) && new_lines@.len() == lines@.len() && string_views(
                new_lines@,
            ) == string_views(lines@).update(
                anchor_line as int,
                spliced_line(line, anchor_col as nat, utf8_len(filter@), token),
            ))
        },
{
    let p = chars_of(full_path);
    let mut i: usize = 0;
    while i < p.len()
        invariant
            i <= p@.len(),
            p@ == full_path@,
            forall|k: int| 0 <= k < i ==> p@[k] != '"',
        decreases p.len() - i,
    {
        if p[i] == '"' {
            let mut m: Vec<char> = Vec::new();
            crate::text::push_str(&mut m, "Cannot attach file: path contains quote character: ");
            push_all(&mut m, p.as_slice());
            return PickerAccept::QuoteRefused(string_of(m.as_slice()));
        }
        i = i + 1;
    }
    if anchor_line >= lines.len() {
        return PickerAccept::LineGone;
    }
    let token = format_at_token(full_path);
    let tv = chars_of(token.as_str());
    let token_bytes = utf8_len_exec(tv.as_slice());
    let fv = chars_of(filter);
    let filter_bytes = utf8_len_exec(fv.as_slice());
    let v = chars_of(lines[anchor_line].as_str());
    let line_bytes = utf8_len_exec(v.as_slice());
    let end_wanted = anchor_col + 1 + filter_bytes;
    let end = if end_wanted <= line_bytes { end_wanted } else { line_bytes };
    let a = chars_for_bytes(&v, anchor_col);
    let e = chars_for_bytes(&v, end);
    let mut out = sub_chars(v.as_slice(), 0, a);
    push_all(&mut out, tv.as_slice());
    let tail = sub_chars(v.as_slice(), e, v.len());
    push_all(&mut out, tail.as_slice());
    assert(v@.subrange(0, a as int) =~= v@.take(a as int));
    assert(v@.subrange(e as int, v@.len() as int) =~= v@.skip(e as int));
    let new_line = string_of(out.as_slice());
    let mut new_lines: Vec<String> = Vec::new();
    let mut j: usize = 0;
    while j < lines.len()
        invariant
            j <= lines@.len(),
            anchor_line < lines@.len(),
            new_line@ == out@,
            new_lines@.len() == j,
            forall|k: int|
                0 <= k < j ==> (#[trigger] new_lines@[k])@ == (if k == anchor_line {
                    new_line@
                } else {
                    lines@[k]@
                }),
        decreases lines.len() - j,
    {
        if j == anchor_line {
            new_lines.push(string_of(out.as_slice()));
        } else {
            let c = chars_of(lines[j].as_str());
            new_lines.push(string_of(c.as_slice()));
        }
        j = j + 1;
    }
    assert(string_views(new_lines@) =~= string_views(lines@).update(anchor_line as int, new_line@));
    PickerAccept::Inserted(new_lines, anchor_line, anchor_col + token_bytes)
}


// ---------------------------------------------------------------------
// Paths
// ---------------------------------------------------------------------

/// `PathBuf::push` of `p` onto `base` on Unix: an absolute `p` replaces `base`;
/// otherwise `p` is appended, after a `/` unless `base` is empty or already ends with
/// one.
pub open spec fn join_path(base: Seq<char>, p: Seq<char>) -> Seq<char> {
    if p.len() > 0 && p[0] == '/' {
        p
    } else if base.len() == 0 || base.last() == '/' {
        base + p
    } else {
        base + seq!['/'] + p
    }
}

/// `base` joined with `p` (see `join_path`).
pub fn join_path_exec(base: &str, p: &str) -> (r: String)
    ensures
        r@ == join_path(base@, p@),
{
    let b = chars_of(base);
    let q = chars_of(p);
    let mut out: Vec<char> = Vec::new();
    if q.len() > 0 && q[0] == '/' {
        push_all(&mut out, q.as_slice());
    } else if b.len() == 0 || b[b.len() - 1] == '/' {
        push_all(&mut out, b.as_slice());
        push_all(&mut out, q.as_slice());
    } else {
        push_all(&mut out, b.as_slice());
        out.push('/');
        push_all(&mut out, q.as_slice());
    }
    string_of(out.as_slice())
}

/// A path typed after `@`: `~/rest` is `rest` under the home directory and `~` the
/// home directory itself (when it is known); an absolute path stays as it is; any
/// other is taken under `cwd`.
pub open spec fn expanded_path(raw: Seq<char>, cwd: Seq<char>, home: Option<Seq<char>>) -> Seq<char> {
    if starts_with(raw, seq!['~', '/']) && home is Some {
        join_path(home->Some_0, raw.skip(2))
    } else if raw == seq!['~'] && home is Some {
        home->Some_0
    } else if raw.len() > 0 && raw[0] == '/' {
        raw
    } else {
        join_path(cwd, raw)
    }
}

/// Expands a path typed after `@` (see `expanded_path`); `home` is the user's home
/// directory, if known.
pub fn expand_at_path(raw: &str, cwd: &str, home: Option<&str>) -> (r: String)
    ensures
        r@ == expanded_path(raw@, cwd@, match home { Some(h) => Some(h@), None => None }),
{
    let v = chars_of(raw);
    let tilde_slash: Vec<char> = vec!['~', '/'];
    assert(tilde_slash@ =~= seq!['~', '/']);
    match home {
        Some(h) => {
            if has_prefix(v.as_slice(), tilde_slash.as_slice()) {
                let rest = sub_chars(v.as_slice(), 2, v.len());
                assert(rest@ =~= raw@.skip(2));
                let rs = string_of(rest.as_slice());
                return join_path_exec(h, rs.as_str());
            }
            if v.len() == 1 && v[0] == '~' {
                assert(raw@ =~= seq!['~']);
                return String::from_str(h);
            }
        },
        None => {},
    }
    if v.len() > 0 && v[0] == '/' {
        return String::from_str(raw);
    }
    proof {
        if raw@ == seq!['~'] {
            assert(v@.len() == 1);
        }
    }
    join_path_exec(cwd, raw)
}

impl FilePickerState {
    /// The directory Enter or Tab descends into: the selected entry joined onto the
    /// listed directory, when the selection is a directory; `None` when nothing is
    /// selected or the selection is a file.
    pub fn descend_target(&self) -> (r: Option<String>)
        ensures
            ({
                let vis = visible_spec(self.entries@, self.filter@);
                if self.selected < vis.len() && self.entries@[vis[self.selected as int] as int].is_dir {
                    r matches Some(d) && d@ == join_path(
                        self.base_dir@,
                        self.entries@[vis[self.selected as int] as int].name@,
                    )
                } else {
                    r is None
                }
            }),
    {
        match self.current() {
            Some(e) => {
                if e.is_dir {
                    Some(join_path_exec(self.base_dir.as_str(), e.name.as_str()))
                } else {
                    None
                }
            },
            None => None,
        }
    }
}


// ---------------------------------------------------------------------
// Splitting a typed path into directory and filter
// ---------------------------------------------------------------------

/// What `std::path::Path::parent` gives for the path written `p`, as text: the path
/// without its last component, `None` for a path that ends in the root or is empty.
pub uninterp spec fn path_parent(p: Seq<char>) -> Option<Seq<char>>;

/// What `std::path::Path::file_name` gives for the path written `p`, as text: its
/// last component when that is a name, `None` when it is `..`, the root or nothing.
pub uninterp spec fn path_file_name(p: Seq<char>) -> Option<Seq<char>>;

/// `std::path::Path::parent` of the path `p`, converted to text (lossless: the path
/// came from text). Claimed: the result depends on `p` alone.
#[verifier::external_body]
fn parent_of(p: &str) -> (r: Option<String>)
    ensures
        match r {
            Some(q) => path_parent(p@) == Some(q@),
            None => path_parent(p@) is None,
        },
{
    match std::path::Path::new(p).parent() {
        Some(q) => Some(q.to_string_lossy().into_owned()),
        None => None,
    }
}

/// `std::path::Path::file_name` of the path `p`, converted to text (lossless: the
/// path came from text). Claimed: the result depends on `p` alone.
#[verifier::external_body]
fn file_name_of(p: &str) -> (r: Option<String>)
    ensures
        match r {
            Some(q) => path_file_name(p@) == Some(q@),
            None => path_file_name(p@) is None,
        },
{
    match std::path::Path::new(p).file_name() {
        Some(f) => Some(f.to_string_lossy().into_owned()),
        None => None,
    }
}

/// A path typed in the file picker, expanded: `~/rest` is `rest` under the home
/// directory and `~` the home directory itself (each kept as typed when the home
/// directory is unknown); an absolute path stays as it is; any other is taken under
/// `cwd`.
pub open spec fn fragment_expanded(typed: Seq<char>, cwd: Seq<char>, home: Option<Seq<char>>) -> Seq<char> {
    if starts_with(typed, seq!['~', '/']) {
        match home {
            Some(h) => join_path(h, typed.skip(2)),
            None => typed,
        }
    } else if typed == seq!['~'] {
        match home {
            Some(h) => h,
            None => typed,
        }
    } else if typed.len() > 0 && typed[0] == '/' {
        typed
    } else {
        join_path(cwd, typed)
    }
}

/// The directory to list and the filter for a path typed in the file picker: nothing
/// typed lists `cwd`; a path ending in `/` lists that directory with no filter;
/// otherwise the expanded path's parent is listed (`cwd` when it has none) and its
/// last name is the filter (empty when it has none).
pub open spec fn split_typed_spec(cwd: Seq<char>, home: Option<Seq<char>>, typed: Seq<char>) -> (Seq<char>, Seq<char>) {
    if typed.len() == 0 {
        (cwd, Seq::empty())
    } else if typed.last() == '/' {
        (fragment_expanded(typed, cwd, home), Seq::empty())
    } else {
        let e = fragment_expanded(typed, cwd, home);
        (
            match path_parent(e) { Some(p) => p, None => cwd },
            match path_file_name(e) { Some(f) => f, None => Seq::empty() },
        )
    }
}

/// Expands a path typed in the file picker (see `fragment_expanded`).
pub fn expand_typed_path(cwd: &str, home: Option<&str>, typed: &str) -> (r: String)
    ensures
        r@ == fragment_expanded(typed@, cwd@, match home { Some(h) => Some(h@), None => None }),
{
    let v = chars_of(typed);
    let tilde_slash: Vec<char> = vec!['~', '/'];
    assert(tilde_slash@ =~= seq!['~', '/']);
    if has_prefix(v.as_slice(), tilde_slash.as_slice()) {
        match home {
            Some(h) => {
                let rest = sub_chars(v.as_slice(), 2, v.len());
                assert(rest@ =~= typed@.skip(2));
                let rs = string_of(rest.as_slice());
                join_path_exec(h, rs.as_str())
            },
            None => String::from_str(typed),
        }
    } else if v.len() == 1 && v[0] == '~' {
        assert(typed@ =~= seq!['~']);
        match home {
            Some(h) => String::from_str(h),
            None => String::from_str(typed),
        }
    } else {
        proof {
            if typed@ == seq!['~'] {
                assert(v@.len() == 1);
            }
        }
        if v.len() > 0 && v[0] == '/' {
            String::from_str(typed)
        } else {
            join_path_exec(cwd, typed)
        }
    }
}

/// The directory to list and the filter, given the expanded path's parent and last
/// name as `Path` gives them: the parent (else `cwd`) and the name (else nothing).
pub fn split_from_parts(cwd: &str, parent: Option<String>, file_name: Option<String>) -> (r: (String, String))
    ensures
        r.0@ == (match parent { Some(p) => p@, None => cwd@ }),
        r.1@ == (match file_name { Some(f) => f@, None => Seq::<char>::empty() }),
{
    let dir = match parent {
        Some(p) => p,
        None => String::from_str(cwd),
    };
    let file = match file_name {
        Some(f) => f,
        None => String::new(),
    };
    (dir, file)
}

/// Splits a path typed in the file picker into the directory to list and the filter
/// (see `split_typed_spec`); `home` is the user's home directory, if known.
pub fn split_typed_path(cwd: &str, home: Option<&str>, typed: &str) -> (r: (String, String))
    ensures
        (r.0@, r.1@) == split_typed_spec(cwd@, match home { Some(h) => Some(h@), None => None }, typed@),
{
    let v = chars_of(typed);
    if v.len() == 0 {
        return (String::from_str(cwd), String::new());
    }
    let expanded = expand_typed_path(cwd, home, typed);
    if v[v.len() - 1] == '/' {
        return (expanded, String::new());
    }
    let parent = parent_of(expanded.as_str());
    let name = file_name_of(expanded.as_str());
    split_from_parts(cwd, parent, name)
}

} // verus!
