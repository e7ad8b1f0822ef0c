//! Inline formatting of chat text: `**bold**`, `*italic*`, `"dialogue"` and `@file`
//! references (`@path` or `@"path with spaces"`) at the start of a word.

use vstd::prelude::*;
use crate::text::{chars_of, string_of, sub_chars, is_ws, is_ascii_ws, is_whitespace, is_ascii_whitespace};

verus! {

/// How a span of chat text is drawn.
#[derive(Debug, Clone, Copy, PartialEq, Eq, Structural)]
pub enum SpanStyle {
    Plain,
    Bold,
    Italic,
    /// In the dialogue color; the span keeps its quotes.
    Dialogue,
    /// In the file-reference color.
    FileReference,
}

/// A run of text drawn in one style.
#[derive(Debug, Clone, PartialEq, Eq)]
pub struct StyledSpan {
    pub text: String,
    pub style: SpanStyle,
}

pub open spec fn span_views(s: Seq<StyledSpan>) -> Seq<(Seq<char>, SpanStyle)> {
    s.map_values(|x: StyledSpan| (x.text@, x.style))
}

/// First index at or after `k` holding `c`, or -1.
pub open spec fn char_from(t: Seq<char>, c: char, k: int) -> int
    decreases t.len() - k,
{
    if k < 0 || k >= t.len() {
        -1
    } else if t[k] == c {
        k
    } else {
        char_from(t, c, k + 1)
    }
}

/// First index at or after `k` where `**` starts, or -1.
pub open spec fn pair_from(t: Seq<char>, k: int) -> int
    decreases t.len() - k,
{
    if k < 0 || k + 1 >= t.len() {
        -1
    } else if t[k] == '*' && t[k + 1] == '*' {
        k
    } else {
        pair_from(t, k + 1)
    }
}

/// First index at or after `k` holding whitespace, or `t.len()`.
pub open spec fn ws_from(t: Seq<char>, k: int) -> int
    decreases t.len() - k,
{
    if k >= t.len() {
        t.len() as int
    } else if is_ws(t[k]) {
        k
    } else {
        ws_from(t, k + 1)
    }
}

/// Where the closing `c` of a span whose content starts at `cs` stands: the content
/// is at least one character, so the search starts one past `cs`. -1 when there is
/// none.
pub open spec fn closing_char(t: Seq<char>, cs: int, c: char) -> int {
    if cs + 2 <= t.len() {
        char_from(t, c, cs + 1)
    } else {
        -1
    }
}

/// Where the closing `**` of a bold span whose content starts at `cs` stands, or -1.
pub open spec fn closing_pair(t: Seq<char>, cs: int) -> int {
    if cs + 2 <= t.len() {
        pair_from(t, cs + 1)
    } else {
        -1
    }
}

/// `t[ps..i]` as a plain span, when it is not empty.
pub open spec fn plain_before(t: Seq<char>, ps: int, i: int) -> Seq<(Seq<char>, SpanStyle)> {
    if ps < i {
        seq![(t.subrange(ps, i), SpanStyle::Plain)]
    } else {
        Seq::empty()
    }
}

/// Whether an `@` at `i` starts a word (the text starts there, or ASCII whitespace
/// comes before it).
pub open spec fn at_word_start(t: Seq<char>, i: int) -> bool {
    i == 0 || is_ascii_ws(t[i - 1])
}

/// The spans of `t` from index `i` on, `ps` being where the pending plain text starts.
pub open spec fn spans_from(t: Seq<char>, i: int, ps: int) -> Seq<(Seq<char>, SpanStyle)>
    decreases t.len() - i, 0int,
{
    if i < 0 || i >= t.len() || ps < 0 || ps > i {
        if 0 <= ps < t.len() {
            seq![(t.subrange(ps, t.len() as int), SpanStyle::Plain)]
        } else {
            Seq::empty()
        }
    } else {
        let c = t[i];
        if c == '*' && i + 1 < t.len() && t[i + 1] == '*' {
            let k = closing_pair(t, i + 2);
            proof {
                lemma_pair_from(t, i + 3);
            }
            if k >= 0 {
                plain_before(t, ps, i) + seq![(t.subrange(i + 2, k), SpanStyle::Bold)] + spans_from(t, k + 2, k + 2)
            } else {
                spans_from(t, i + 2, ps)
            }
        } else if c == '*' {
            let k = closing_char(t, i + 1, '*');
            proof {
                lemma_char_from(t, '*', i + 2);
            }
            if k >= 0 {
                plain_before(t, ps, i) + seq![(t.subrange(i + 1, k), SpanStyle::Italic)] + spans_from(t, k + 1, k + 1)
            } else {
                spans_from(t, i + 1, ps)
            }
        } else if c == '"' {
            let k = closing_char(t, i + 1, '"');
            proof {
                lemma_char_from(t, '"', i + 2);
            }
            if k >= 0 {
                plain_before(t, ps, i) + seq![(t.subrange(i, k + 1), SpanStyle::Dialogue)] + spans_from(t, k + 1, k + 1)
            } else {
                spans_from(t, i + 1, ps)
            }
        } else if c == '@' && at_word_start(t, i) {
            if i + 1 < t.len() && t[i + 1] == '"' {
                let q = char_from(t, '"', i + 2);
                proof {
                    lemma_char_from(t, '"', i + 2);
                }
                if q >= 0 {
                    plain_before(t, ps, i) + seq![(t.subrange(i, q + 1), SpanStyle::FileReference)] + spans_from(t, q + 1, q + 1)
                } else {
                    spans_from(t, i + 2, ps)
                }
            } else {
                let e = ws_from(t, i + 1);
                proof {
                    lemma_ws_from(t, i + 1);
                }
                if e > i + 1 {
                    plain_before(t, ps, i) + seq![(t.subrange(i, e), SpanStyle::FileReference)] + spans_from(t, e, e)
                } else {
                    spans_from(t, e, ps)
                }
            }
        } else {
            spans_from(t, i + 1, ps)
        }
    }
}

/// The spans of a line of chat text, in order.
pub open spec fn styled_spans(t: Seq<char>) -> Seq<(Seq<char>, SpanStyle)> {
    spans_from(t, 0, 0)
}

pub proof fn lemma_char_from(t: Seq<char>, c: char, k: int)
    requires
        0 <= k,
    ensures
        char_from(t, c, k) == -1 || (k <= char_from(t, c, k) < t.len() && t[char_from(t, c, k)] == c),
    decreases t.len() - k,
{
    if k < t.len() && t[k] != c {
        lemma_char_from(t, c, k + 1);
    }
}

pub proof fn lemma_pair_from(t: Seq<char>, k: int)
    requires
        0 <= k,
    ensures
        pair_from(t, k) == -1 || (k <= pair_from(t, k) && pair_from(t, k) + 1 < t.len()),
    decreases t.len() - k,
{
    if k + 1 < t.len() && !(t[k] == '*' && t[k + 1] == '*') {
        lemma_pair_from(t, k + 1);
    }
}

pub proof fn lemma_ws_from(t: Seq<char>, k: int)
    requires
        0 <= k <= t.len(),
    ensures
        k <= ws_from(t, k) <= t.len(),
    decreases t.len() - k,
{
    if k < t.len() && !is_ws(t[k]) {
        lemma_ws_from(t, k + 1);
    }
}

fn find_char(t: &[char], c: char, k: usize) -> (r: Option<usize>)
    ensures
        match r {
            Some(j) => char_from(t@, c, k as int) == j,
            None => char_from(t@, c, k as int) == -1,
        },
{
    let mut j = k;
    while j < t.len()
        invariant
            k <= j,
            char_from(t@, c, k as int) == char_from(t@, c, j as int),
        decreases t.len() - j,
    {
        if t[j] == c {
            return Some(j);
        }
        j = j + 1;
    }
    None
}

fn find_pair(t: &[char], k: usize) -> (r: Option<usize>)
    ensures
        match r {
            Some(j) => pair_from(t@, k as int) == j,
            None => pair_from(t@, k as int) == -1,
        },
{
    let mut j = k;
    while j < t.len() && j + 1 < t.len()
        invariant
            k <= j,
            pair_from(t@, k as int) == pair_from(t@, j as int),
        decreases t.len() - j,
    {
        if t[j] == '*' && t[j + 1] == '*' {
            return Some(j);
        }
        j = j + 1;
    }
    None
}

fn find_ws(t: &[char], k: usize) -> (r: usize)
    requires
        k <= t.len(),
    ensures
        r == ws_from(t@, k as int),
{
    let mut j = k;
    while j < t.len()
        invariant
            k <= j <= t.len(),
            ws_from(t@, k as int) == ws_from(t@, j as int),
        decreases t.len() - j,
    {
        if is_whitespace(t[j]) {
            return j;
        }
        j = j + 1;
    }
    j
}

fn push_span(spans: &mut Vec<StyledSpan>, t: &[char], lo: usize, hi: usize, style: SpanStyle)
    requires
        lo <= hi <= t.len(),
    ensures
        span_views(final(spans)@) == span_views(old(spans)@).push((t@.subrange(lo as int, hi as int), style)),
{
    let piece = sub_chars(t, lo, hi);
    spans.push(StyledSpan { text: string_of(piece.as_slice()), style });
    assert(span_views(spans@) =~= span_views(old(spans)@).push((t@.subrange(lo as int, hi as int), style)));
}

fn push_plain_before(spans: &mut Vec<StyledSpan>, t: &[char], ps: usize, i: usize)
    requires
        ps <= i <= t.len(),
    ensures
        span_views(final(spans)@) == span_views(old(spans)@) + plain_before(t@, ps as int, i as int),
{
    if ps < i {
        push_span(spans, t, ps, i, SpanStyle::Plain);
    } else {
        assert(span_views(spans@) + plain_before(t@, ps as int, i as int) =~= span_views(spans@));
    }
}

/// Splits a line of chat text into styled spans (see `styled_spans`).
pub fn parse_styled_line(text: &str) -> (r: Vec<StyledSpan>)
    ensures
        span_views(r@) == styled_spans(text@),
{
    let t = chars_of(text);
    let t = t.as_slice();
    let n = t.len();
    let mut spans: Vec<StyledSpan> = Vec::new();
    let mut i: usize = 0;
    let mut ps: usize = 0;
    assert(span_views(spans@) =~= Seq::empty());
    while i < n
        invariant
            n == t@.len(),
            t@ == text@,
            ps <= i <= n,
            span_views(spans@) + spans_from(t@, i as int, ps as int) == styled_spans(text@),
        decreases n - i,
    {
        let ghost before = span_views(spans@);
        let c = t[i];
        if c == '*' && i + 1 < n && t[i + 1] == '*' {
            let close = if n - i >= 4 {
                find_pair(t, i + 3)
            } else {
                None
            };
            proof {
                if i + 4 <= n {
                    lemma_pair_from(t@, i + 3);
                }
            }
            match close {
                Some(k) => {
                    push_plain_before(&mut spans, t, ps, i);
                    push_span(&mut spans, t, i + 2, k, SpanStyle::Bold);
                    assert(span_views(spans@) + spans_from(t@, k + 2, k + 2) =~= before + spans_from(t@, i as int, ps as int));
                    i = k + 2;
                    ps = k + 2;
                },
                None => {
                    i = i + 2;
                },
            }
        } else if c == '*' || c == '"' {
            let close = if n - i >= 3 {
                find_char(t, c, i + 2)
            } else {
                None
            };
            proof {
                if i + 3 <= n {
                    lemma_char_from(t@, c, i + 2);
                }
            }
            match close {
                Some(k) => {
                    push_plain_before(&mut spans, t, ps, i);
                    if c == '*' {
                        push_span(&mut spans, t, i + 1, k, SpanStyle::Italic);
                    } else {
                        push_span(&mut spans, t, i, k + 1, SpanStyle::Dialogue);
                    }
                    assert(span_views(spans@) + spans_from(t@, k + 1, k + 1) =~= before + spans_from(t@, i as int, ps as int));
                    i = k + 1;
                    ps = k + 1;
                },
                None => {
                    i = i + 1;
                },
            }
        } else if c == '@' && (i == 0 || is_ascii_whitespace(t[i - 1])) {
            if i + 1 < n && t[i + 1] == '"' {
                let close = find_char(t, '"', i + 2);
                proof {
                    lemma_char_from(t@, '"', i + 2);
                }
                match close {
                    Some(q) => {
                        push_plain_before(&mut spans, t, ps, i);
                        push_span(&mut spans, t, i, q + 1, SpanStyle::FileReference);
                        assert(span_views(spans@) + spans_from(t@, q + 1, q + 1) =~= before + spans_from(t@, i as int, ps as int));
                        i = q + 1;
                        ps = q + 1;
                    },
                    None => {
                        i = i + 2;
                    },
                }
            } else {
                let e = find_ws(t, i + 1);
                proof {
                    lemma_ws_from(t@, i + 1);
                }
                if e > i + 1 {
                    push_plain_before(&mut spans, t, ps, i);
                    push_span(&mut spans, t, i, e, SpanStyle::FileReference);
                    assert(span_views(spans@) + spans_from(t@, e as int, e as int) =~= before + spans_from(t@, i as int, ps as int));
                    ps = e;
                }
                i = e;
            }
        } else {
            i = i + 1;
        }
    }
    if ps < n {
        push_span(&mut spans, t, ps, n, SpanStyle::Plain);
    }
    assert(span_views(spans@) =~= styled_spans(text@));
    spans
}

} // verus!
