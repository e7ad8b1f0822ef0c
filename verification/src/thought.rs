//! Recognition of a leading `<think>` block in a model response, and the
//! bookkeeping of how long the model spent thinking.
//!
//! A thinking block is only recognized when it sits at the very start of the
//! response -- either as a literal `<think>` prefix or, when
//! `implicit_open_from_start` is set, as the initial body of the response up to
//! the first `</think>`. Any later `<think>` / `</think>` tokens are literal content.

use vstd::prelude::*;
use crate::text::{chars_of, find, find_from, find_chars, has_prefix, starts_with, occurs_at};

verus! {

/// `std::time::Instant`, declared so that clock readings can be carried through the
/// library's signatures and fields; nothing inside one is visible to proofs.
#[verifier::external_type_specification]
#[verifier::external_body]
pub struct ExInstant(std::time::Instant);

#[derive(Clone, Copy, Debug, PartialEq, Eq)]
pub struct ThinkSplit<'a> {
    pub thought: Option<&'a str>,
    pub after: &'a str,
    pub closed: bool,
}

pub open spec fn open_tag() -> Seq<char> {
    seq!['<', 't', 'h', 'i', 'n', 'k', '>']
}

pub open spec fn close_tag() -> Seq<char> {
    seq!['<', '/', 't', 'h', 'i', 'n', 'k', '>']
}

/// The thought (if any), the text after it, and whether the block was closed.
pub open spec fn split_spec(content: Seq<char>, implicit_open_from_start: bool) -> (
    Option<Seq<char>>,
    Seq<char>,
    bool,
) {
    if starts_with(content, open_tag()) {
        let a = content.subrange(7, content.len() as int);
        match find(a, close_tag()) {
            Some(k) => (Some(a.subrange(0, k)), a.subrange(k + 8, a.len() as int), true),
            None => (Some(a), seq![], false),
        }
    } else if implicit_open_from_start {
        match find(content, close_tag()) {
            Some(k) => (Some(content.subrange(0, k)), content.subrange(k + 8, content.len() as int), true),
            None => (Some(content), seq![], false),
        }
    } else {
        (None, content, false)
    }
}

pub open spec fn split_view(s: ThinkSplit) -> (Option<Seq<char>>, Seq<char>, bool) {
    (
        match s.thought {
            Some(t) => Some(t@),
            None => None,
        },
        s.after@,
        s.closed,
    )
}

/// Splits a response into its leading thought block and the rest.
pub fn split_first_think_block<'a>(content: &'a str, implicit_open_from_start: bool) -> (r:
    ThinkSplit<'a>)
    ensures
        split_view(r) == split_spec(content@, implicit_open_from_start),
{
    proof {
        reveal_strlit("");
        assert(""@ =~= Seq::<char>::empty());
    }
    let cs = chars_of(content);
    let open: Vec<char> = vec!['<', 't', 'h', 'i', 'n', 'k', '>'];
    let close: Vec<char> = vec!['<', '/', 't', 'h', 'i', 'n', 'k', '>'];
    assert(open@ =~= open_tag());
    assert(close@ =~= close_tag());
    let n = cs.len();
    if has_prefix(cs.as_slice(), open.as_slice()) {
        let after_open = content.substring_char(7, n);
        let rest: Vec<char> = chars_of(after_open);
        match find_chars(rest.as_slice(), close.as_slice()) {
            Some(k) => {
                return ThinkSplit {
                    thought: Some(after_open.substring_char(0, k)),
                    after: after_open.substring_char(k + 8, rest.len()),
                    closed: true,
                };
            },
            None => {
                return ThinkSplit { thought: Some(after_open), after: "", closed: false };
            },
        }
    }
    if implicit_open_from_start {
        match find_chars(cs.as_slice(), close.as_slice()) {
            Some(k) => {
                return ThinkSplit {
                    thought: Some(content.substring_char(0, k)),
                    after: content.substring_char(k + 8, n),
                    closed: true,
                };
            },
            None => {
                return ThinkSplit { thought: Some(content), after: "", closed: false };
            },
        }
    }
    ThinkSplit { thought: None, after: content, closed: false }
}

/// Whole seconds of thinking as recorded on a message: none below one second,
/// and at most `u32::MAX`.
pub fn seconds_from_elapsed(elapsed: u64) -> (r: Option<u32>)
    ensures
        r == (if elapsed == 0 {
            None
        } else if elapsed > u32::MAX {
            Some(u32::MAX)
        } else {
            Some(elapsed as u32)
        }),
{
    if elapsed == 0 {
        return None;
    }
    if elapsed > u32::MAX as u64 {
        Some(u32::MAX)
    } else {
        Some(elapsed as u32)
    }
}

/// Seconds measured between the first token of a thought and its closing tag.
pub fn measured_thought_seconds(
    started_at: Option<std::time::Instant>,
    closed_at: Option<std::time::Instant>,
) -> (r: Option<u32>)
    ensures
        (started_at is None || closed_at is None) ==> r is None,
        r matches Some(v) ==> v >= 1,
{
    match (started_at, closed_at) {
        (Some(s), Some(c)) => {
            let elapsed = crate::clock::duration_as_secs(crate::clock::instant_saturating_duration_since(c, s));
            seconds_from_elapsed(elapsed)
        },
        _ => None,
    }
}

/// The thinking time to keep for a message: only when its thought block is closed,
/// and then the recorded value in preference to the freshly measured one.
pub fn resolve_thought_seconds(
    content: &str,
    existing: Option<u32>,
    measured: Option<u32>,
    implicit_open_from_start: bool,
) -> (r: Option<u32>)
    ensures
        r == (if !split_spec(content@, implicit_open_from_start).2 {
            None
        } else if existing is Some {
            existing
        } else {
            measured
        }),
{
    if !split_first_think_block(content, implicit_open_from_start).closed {
        return None;
    }
    match existing {
        Some(v) => Some(v),
        None => measured,
    }
}


/// `std::time::Instant::now`. Nothing is stated of the reading.
#[verifier::external_body]
pub(crate) fn instant_now() -> std::time::Instant {
    std::time::Instant::now()
}


/// Whether `p` occurs anywhere in `s`.
pub open spec fn occurs_in(s: Seq<char>, p: Seq<char>) -> bool {
    exists|j: int| #[trigger] occurs_at(s, p, j)
}

proof fn lemma_find_from_first(s: Seq<char>, p: Seq<char>, i: int)
    requires
        0 <= i,
    ensures
        match find_from(s, p, i) {
            Some(k) => i <= k && occurs_at(s, p, k) && forall|j: int|
                i <= j < k ==> !#[trigger] occurs_at(s, p, j),
            None => forall|j: int| i <= j ==> !#[trigger] occurs_at(s, p, j),
        },
    decreases s.len() + 1 - i,
{
    if i + p.len() > s.len() {
    } else if occurs_at(s, p, i) {
    } else {
        lemma_find_from_first(s, p, i + 1);
    }
}

/// The tag a split starts from: `<think>` when the text opens with it, else nothing.
pub open spec fn leading_tag(content: Seq<char>) -> Seq<char> {
    if starts_with(content, open_tag()) { open_tag() } else { Seq::empty() }
}

/// How a split rebuilds the text. A closed block is the leading tag, a thought with no
/// closing tag in it, the closing tag and the rest; an unclosed one is the leading tag
/// and a thought running to the end, with nothing after it; without a thought the
/// whole text is the rest, and that happens only when the text neither opens with
/// `<think>` nor is taken as a thought from the start.
pub proof fn law_think_split_rebuilds(content: Seq<char>, implicit_open_from_start: bool)
    ensures
        ({
            let (thought, after, closed) = split_spec(content, implicit_open_from_start);
            let p = leading_tag(content);
            &&& closed ==> (thought matches Some(x) && content == p + x + close_tag() + after
                && !occurs_in(x, close_tag()))
            &&& (!closed && thought is Some) ==> (after.len() == 0 && content == p
                + thought->Some_0)
            &&& thought is None ==> (after == content && !closed && !implicit_open_from_start
                && p.len() == 0)
        }),
{
    let opened = starts_with(content, open_tag());
    let a = if opened { content.subrange(7, content.len() as int) } else { content };
    let p = leading_tag(content);
    if opened {
        assert(content =~= p + a);
    } else {
        assert(content =~= p + a);
    }
    if opened || implicit_open_from_start {
        lemma_find_from_first(a, close_tag(), 0);
        match find(a, close_tag()) {
            Some(k) => {
                let x = a.subrange(0, k);
                let after = a.subrange(k + 8, a.len() as int);
                assert(a.subrange(k, k + 8) == close_tag());
                assert(a =~= x + close_tag() + after);
                assert(content =~= p + x + close_tag() + after);
                assert forall|j: int| !#[trigger] occurs_at(x, close_tag(), j) by {
                    if occurs_at(x, close_tag(), j) {
                        assert(x.subrange(j, j + 8) =~= a.subrange(j, j + 8));
                        assert(occurs_at(a, close_tag(), j));
                    }
                }
            },
            None => {
                assert(content =~= p + a);
            },
        }
    }
}

} // verus!
