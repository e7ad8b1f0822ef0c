//! The texts of the status bar: on the left the group-chat chip, a badge for missing
//! character cards and the version (cut to the room left); on the right the key hints
//! and the sliding notification (cut to how far it has slid in).

use vstd::prelude::*;
use crate::text::{chars_of, string_of, sub_chars, decimal, utf8_len, push_str, push_decimal};
use crate::status::{fitting_prefix, fitting_prefix_exec, utf8_longer_than};

verus! {

/// `s` cut to its longest prefix of at most `max_len` bytes that ends on a character
/// boundary.
pub open spec fn truncated(s: Seq<char>, max_len: nat) -> Seq<char> {
    s.take(fitting_prefix(s, max_len) as int)
}

/// `s` cut to at most `max_len` bytes, on a character boundary.
pub fn truncate_str(s: &str, max_len: usize) -> (r: String)
    requires
        max_len < usize::MAX - 4,
    ensures
        r@ == truncated(s@, max_len as nat),
{
    let v = chars_of(s);
    let k = fitting_prefix_exec(v.as_slice(), max_len);
    let w = sub_chars(v.as_slice(), 0, k);
    assert(w@ =~= v@.take(k as int));
    string_of(w.as_slice())
}

fn byte_len(s: &Vec<char>) -> (n: usize)
    requires
        utf8_len(s@) < usize::MAX - 4,
    ensures
        n == utf8_len(s@),
{
    let mut n: usize = 0;
    let mut i: usize = 0;
    while i < s.len()
        invariant
            i <= s@.len(),
            n == utf8_len(s@.take(i as int)),
            utf8_len(s@) < usize::MAX - 4,
        decreases s.len() - i,
    {
        proof {
            assert(s@.take(i + 1).drop_last() =~= s@.take(i as int));
            crate::text::lemma_utf8_len_prefix(s@, i + 1);
        }
        n = n + crate::text::utf8_width_exec(s[i]);
        i = i + 1;
    }
    assert(s@.take(i as int) =~= s@);
    n
}

/// How a group chat picks the next speaker.
#[derive(Debug, Clone, Copy, PartialEq, Eq, Structural)]
pub enum ChatPolicy {
    RoundRobin,
    WeightedRandom,
}

/// How a group chat builds the prompt from the character cards.
#[derive(Debug, Clone, Copy, PartialEq, Eq, Structural)]
pub enum CardAssembly {
    JoinCards,
    SwapCards,
}

pub open spec fn group_chip_text(n: nat, policy: ChatPolicy, assembly: CardAssembly) -> Seq<char> {
    "["@ + decimal(n) + " chars · "@ + (match policy { ChatPolicy::RoundRobin => "RR"@, ChatPolicy::WeightedRandom => "WR"@ })
        + " · "@ + (match assembly { CardAssembly::JoinCards => "join"@, CardAssembly::SwapCards => "swap"@ }) + "] "@
}

pub open spec fn missing_badge_text(n: nat) -> Seq<char> {
    "["@ + decimal(n) + " missing] "@
}

/// The left part of the status bar.
#[derive(Debug, Clone)]
pub struct LeftParts {
    /// In a group chat: the number of characters, the speaker policy and the card
    /// assembly.
    pub group_chip: Option<String>,
    /// In a group chat with characters whose cards are missing: their number (shown in
    /// red).
    pub missing_badge: Option<String>,
    /// The version, cut to the room the other parts leave within `max_len` bytes.
    pub version: String,
}

/// The left part of the status bar for a chat with `characters` characters of which
/// `missing` have no card, showing `version` (with a leading space) in at most
/// `max_len` bytes.
pub fn left_parts(characters: usize, policy: ChatPolicy, assembly: CardAssembly, missing: usize, version: &str, max_len: usize) -> (r: LeftParts)
    requires
        max_len < usize::MAX - 4,
    ensures
        ({
            let chip = if characters >= 2 { Some(group_chip_text(characters as nat, policy, assembly)) } else { None };
            let badge = if characters >= 2 && missing > 0 { Some(missing_badge_text(missing as nat)) } else { None };
            let used = (match chip { Some(c) => utf8_len(c), None => 0 }) + (match badge { Some(b) => utf8_len(b), None => 0 });
            let budget: nat = if used <= max_len { (max_len - used) as nat } else { 0 };
            &&& (match (r.group_chip, chip) { (Some(a), Some(b)) => a@ == b, (None, None) => true, _ => false })
            &&& (match (r.missing_badge, badge) { (Some(a), Some(b)) => a@ == b, (None, None) => true, _ => false })
            &&& r.version@ == truncated(" "@ + version@, budget)
        }),
{
    let mut used: usize = 0;
    let mut chip: Option<String> = None;
    let mut badge: Option<String> = None;
    if characters >= 2 {
        let mut c: Vec<char> = Vec::new();
        push_str(&mut c, "[");
        push_decimal(&mut c, characters as u64);
        push_str(&mut c, " chars · ");
        push_str(&mut c, match policy { ChatPolicy::RoundRobin => "RR", ChatPolicy::WeightedRandom => "WR" });
        push_str(&mut c, " · ");
        push_str(&mut c, match assembly { CardAssembly::JoinCards => "join", CardAssembly::SwapCards => "swap" });
        push_str(&mut c, "] ");
        assert(c@ =~= group_chip_text(characters as nat, policy, assembly));
        proof {
            crate::validation::lemma_decimal_len_u64(characters as u64);
            reveal_strlit("[");
            reveal_strlit(" chars · ");
            reveal_strlit("RR");
            reveal_strlit("WR");
            reveal_strlit(" · ");
            reveal_strlit("join");
            reveal_strlit("swap");
            reveal_strlit("] ");
            lemma_small_text_len(c@);
        }
        used = byte_len(&c);
        chip = Some(string_of(c.as_slice()));
        if missing > 0 {
            let mut b: Vec<char> = Vec::new();
            push_str(&mut b, "[");
            push_decimal(&mut b, missing as u64);
            push_str(&mut b, " missing] ");
            assert(b@ =~= missing_badge_text(missing as nat));
            proof {
                crate::validation::lemma_decimal_len_u64(missing as u64);
                reveal_strlit("[");
                reveal_strlit(" missing] ");
                lemma_small_text_len(b@);
            }
            used = used + byte_len(&b);
            badge = Some(string_of(b.as_slice()));
        }
    }
    let budget = if used <= max_len { max_len - used } else { 0 };
    let mut v: Vec<char> = Vec::new();
    push_str(&mut v, " ");
    push_str(&mut v, version);
    let k = fitting_prefix_exec(v.as_slice(), budget);
    let w = sub_chars(v.as_slice(), 0, k);
    assert(w@ =~= v@.take(k as int));
    LeftParts { group_chip: chip, missing_badge: badge, version: string_of(w.as_slice()) }
}

proof fn lemma_small_text_len(s: Seq<char>)
    ensures
        utf8_len(s) <= 4 * s.len(),
    decreases s.len(),
{
    if s.len() > 0 {
        lemma_small_text_len(s.drop_last());
    }
}

/// The right part of the status bar.
#[derive(Debug, Clone, PartialEq, Eq)]
pub struct RightParts {
    /// The key hints, cut to the room the notification leaves (none when nothing is
    /// left of them).
    pub hints: Option<String>,
    /// The notification as far as it has slid in.
    pub notification: Option<String>,
}

/// `n` spaces.
pub open spec fn spaces(n: nat) -> Seq<char> {
    Seq::new(n, |i: int| ' ')
}

/// The visible part of a notification `padded` (its text with a space on each side)
/// that has slid in `width` bytes: cut there, or filled with spaces up to `width`
/// characters when it is wholly in.
pub open spec fn notification_shown(padded: Seq<char>, width: nat) -> Seq<char> {
    if utf8_len(padded) <= width {
        padded + spaces((width - padded.len()) as nat)
    } else {
        truncated(padded, width)
    }
}

/// The right part of the status bar in `max_width` bytes: the hints alone while no
/// notification shows (or none of it has slid in yet); else the notification as far
/// as `slid` bytes of it have slid in, and the hints cut to what room is left.
pub fn right_parts(hints: &str, notification: Option<&str>, slid: usize, max_width: usize) -> (r: RightParts)
    requires
        max_width < usize::MAX - 4,
    ensures
        ({
            let vis: nat = if slid <= max_width { slid as nat } else { max_width as nat };
            match notification {
                None => r.notification is None && (r.hints matches Some(h) && h@ == hints@),
                Some(t) => if vis == 0 {
                    r.notification is None && (r.hints matches Some(h) && h@ == hints@)
                } else {
                    let hint_text = truncated(hints@, (max_width - vis) as nat);
                    &&& (r.notification matches Some(n) && n@ == notification_shown(" "@ + t@ + " "@, vis))
                    &&& if hint_text.len() == 0 { r.hints is None } else { r.hints matches Some(h) && h@ == hint_text }
                },
            }
        }),
{
    let text = match notification {
        None => {
            return RightParts { hints: Some(String::from_str(hints)), notification: None };
        },
        Some(t) => t,
    };
    let vis = if slid <= max_width { slid } else { max_width };
    if vis == 0 {
        return RightParts { hints: Some(String::from_str(hints)), notification: None };
    }
    let shown_hints = truncate_str(hints, max_width - vis);
    let hint_part = if crate::text::char_count(shown_hints.as_str()) == 0 { None } else { Some(shown_hints) };
    let mut padded: Vec<char> = Vec::new();
    push_str(&mut padded, " ");
    push_str(&mut padded, text);
    push_str(&mut padded, " ");
    let ghost p = padded@;
    let shown = if !utf8_longer_than(padded.as_slice(), vis) {
        proof { lemma_chars_within_bytes(p); }
        let mut out = padded;
        let mut i: usize = out.len();
        while i < vis
            invariant
                p.len() <= i <= vis,
                out@ == p + spaces((i - p.len()) as nat),
            decreases vis - i,
        {
            out.push(' ');
            assert(out@ =~= p + spaces((i + 1 - p.len()) as nat));
            i = i + 1;
        }
        out
    } else {
        let k = fitting_prefix_exec(padded.as_slice(), vis);
        let w = sub_chars(padded.as_slice(), 0, k);
        assert(w@ =~= p.take(k as int));
        w
    };
    RightParts { hints: hint_part, notification: Some(string_of(shown.as_slice())) }
}

proof fn lemma_chars_within_bytes(s: Seq<char>)
    ensures
        s.len() <= utf8_len(s),
    decreases s.len(),
{
    if s.len() > 0 {
        lemma_chars_within_bytes(s.drop_last());
    }
}

} // verus!
