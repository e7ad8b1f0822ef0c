//! Status-line messages: their severity and the length they are cut to.

use vstd::prelude::*;
use crate::text::{
    chars_of, string_of, sub_chars, push_str, utf8_width, utf8_len, utf8_width_exec,
    lemma_utf8_len_prefix,
};

verus! {

/// Severity of a status-line message.
#[derive(Debug, Clone, Copy, PartialEq, Eq, Structural)]
pub enum StatusLevel {
    Info,
    Warning,
    Error,
}

/// A message shown in the status line.
#[derive(Debug, Clone)]
pub struct StatusMessage {
    pub text: String,
    pub level: StatusLevel,
}

/// Longest status text, in bytes, that is shown without being cut.
pub const MAX_STATUS_LENGTH: usize = 64;

/// Number of leading characters of `s` whose UTF-8 encoding fits in `n` bytes
/// (the character index of `floor_char_boundary(n)`).
pub open spec fn fitting_prefix(s: Seq<char>, n: nat) -> nat
    decreases s.len(),
{
    if utf8_len(s) <= n || s.len() == 0 {
        s.len()
    } else {
        fitting_prefix(s.drop_last(), n)
    }
}

/// The text the status line shows for `s`: `s` itself when it fits in
/// `MAX_STATUS_LENGTH` bytes, else its longest prefix of at most
/// `MAX_STATUS_LENGTH - 3` bytes followed by `...`.
pub open spec fn status_text_spec(s: Seq<char>) -> Seq<char> {
    if utf8_len(s) > MAX_STATUS_LENGTH {
        s.take(fitting_prefix(s, (MAX_STATUS_LENGTH - 3) as nat) as int) + "..."@
    } else {
        s
    }
}

/// The message that refuses a session file dropped on the sidebar.
pub open spec fn sidebar_paste_refusal() -> Seq<char> {
    "Session import from files is not supported with database storage."@
}

proof fn lemma_fitting_prefix(s: Seq<char>, n: nat, k: int)
    requires
        0 <= k <= s.len(),
        utf8_len(s.take(k)) <= n,
        k == s.len() || utf8_len(s.take(k + 1)) > n,
    ensures
        fitting_prefix(s, n) == k,
    decreases s.len(),
{
    if k == s.len() {
        assert(s.take(k) =~= s);
    } else {
        lemma_utf8_len_prefix(s, k + 1);
        let d = s.drop_last();
        assert(d.take(k) =~= s.take(k));
        if k + 1 < s.len() {
            assert(d.take(k + 1) =~= s.take(k + 1));
        }
        lemma_fitting_prefix(d, n, k);
    }
}

/// Whether the UTF-8 encoding of `v` is longer than `n` bytes.
pub(crate) fn utf8_longer_than(v: &[char], n: usize) -> (b: bool)
    requires
        n < usize::MAX - 4,
    ensures
        b == (utf8_len(v@) > n),
{
    let mut acc: usize = 0;
    let mut i: usize = 0;
    while i < v.len()
        invariant
            i <= v.len(),
            n < usize::MAX - 4,
            acc == utf8_len(v@.take(i as int)),
            acc <= n,
        decreases v.len() - i,
    {
        let w = utf8_width_exec(v[i]);
        assert(v@.take(i + 1).drop_last() =~= v@.take(i as int));
        if acc + w > n {
            proof {
                lemma_utf8_len_prefix(v@, i + 1);
            }
            return true;
        }
        acc = acc + w;
        i = i + 1;
    }
    assert(v@.take(i as int) =~= v@);
    false
}

/// Number of leading characters of `v` that fit in `n` bytes.
pub(crate) fn fitting_prefix_exec(v: &[char], n: usize) -> (k: usize)
    requires
        n < usize::MAX - 4,
    ensures
        k == fitting_prefix(v@, n as nat),
        k <= v.len(),
{
    let mut acc: usize = 0;
    let mut i: usize = 0;
    while i < v.len()
        invariant
            i <= v.len(),
            n < usize::MAX - 4,
            acc == utf8_len(v@.take(i as int)),
            acc <= n,
        decreases v.len() - i,
    {
        let w = utf8_width_exec(v[i]);
        assert(v@.take(i + 1).drop_last() =~= v@.take(i as int));
        if acc + w > n {
            proof {
                lemma_fitting_prefix(v@, n as nat, i as int);
            }
            return i;
        }
        acc = acc + w;
        i = i + 1;
    }
    proof {
        lemma_fitting_prefix(v@, n as nat, i as int);
    }
    i
}

/// The text the status line shows for `text` (see `status_text_spec`).
pub fn status_text(text: String) -> (r: String)
    ensures
        r@ == status_text_spec(text@),
{
    let v = chars_of(text.as_str());
    if !utf8_longer_than(v.as_slice(), MAX_STATUS_LENGTH) {
        return text;
    }
    let k = fitting_prefix_exec(v.as_slice(), MAX_STATUS_LENGTH - 3);
    let mut out = sub_chars(v.as_slice(), 0, k);
    push_str(&mut out, "...");
    assert(v@.subrange(0, k as int) =~= v@.take(k as int));
    string_of(out.as_slice())
}

/// Shows `text` at `level` in the status line, replacing what was there.
pub fn set_status(status: &mut Option<StatusMessage>, text: String, level: StatusLevel)
    ensures
        *final(status) matches Some(m) && m.text@ == status_text_spec(text@) && m.level == level,
{
    let shown = status_text(text);
    *status = Some(StatusMessage { text: shown, level });
}

// ---------------------------------------------------------------------
// When a status shows and goes
// ---------------------------------------------------------------------

/// When the status line's message was set and when it goes, in milliseconds of a
/// monotonic clock. `created_ms` is where its slide-in starts: a message that
/// replaces another starts already slid in.
#[derive(Debug, Clone, Copy, PartialEq, Eq, Structural)]
pub struct StatusTiming {
    pub created_ms: u64,
    pub expires_ms: u64,
}

/// The timing of a message set at `now_ms`: it expires `duration_ms` later, and its
/// slide starts at `now_ms`, or `slide_ms` earlier when it replaces a message
/// (`had_status`).
pub fn status_timing(had_status: bool, now_ms: u64, duration_ms: u64, slide_ms: u64) -> (t: StatusTiming)
    requires
        now_ms + duration_ms <= u64::MAX,
        had_status ==> slide_ms <= now_ms,
    ensures
        t.created_ms == (if had_status { now_ms - slide_ms } else { now_ms as int }),
        t.expires_ms == now_ms + duration_ms,
{
    let created = if had_status { now_ms - slide_ms } else { now_ms };
    StatusTiming { created_ms: created, expires_ms: now_ms + duration_ms }
}

/// Shows `text` at `level` from `now_ms` on (see `set_status` and `status_timing`).
pub fn set_status_at(
    status: &mut Option<StatusMessage>,
    timing: &mut Option<StatusTiming>,
    text: String,
    level: StatusLevel,
    now_ms: u64,
    duration_ms: u64,
    slide_ms: u64,
)
    requires
        now_ms + duration_ms <= u64::MAX,
        old(status).is_some() ==> slide_ms <= now_ms,
    ensures
        *final(status) matches Some(m) && m.text@ == status_text_spec(text@) && m.level == level,
        *final(timing) == Some(StatusTiming {
            created_ms: (if old(status).is_some() { now_ms - slide_ms } else { now_ms as int }) as u64,
            expires_ms: (now_ms + duration_ms) as u64,
        }),
{
    let t = status_timing(status.is_some(), now_ms, duration_ms, slide_ms);
    set_status(status, text, level);
    *timing = Some(t);
}

/// One tick of the status line at `now_ms`: a message whose time is up goes. Returns
/// whether the status line needs redrawing, which is whenever a message was showing.
pub fn expire_status(status: &mut Option<StatusMessage>, timing: &mut Option<StatusTiming>, now_ms: u64) -> (redraw: bool)
    ensures
        redraw == old(status).is_some(),
        ({
            let due = old(status).is_some() && (*old(timing) matches Some(t) && now_ms >= t.expires_ms);
            &&& due ==> final(status).is_none() && final(timing).is_none()
            &&& !due ==> *final(status) == *old(status) && *final(timing) == *old(timing)
        }),
{
    if status.is_none() {
        return false;
    }
    let due = match *timing {
        Some(t) => now_ms >= t.expires_ms,
        None => false,
    };
    if due {
        *status = None;
        *timing = None;
    }
    true
}

/// Where a message's slide stands: sliding in (by so many milliseconds since it
/// started), sliding out (with so many milliseconds left), or fully shown.
#[derive(Debug, Clone, Copy, PartialEq, Eq, Structural)]
pub enum SlidePhase {
    SlidingIn(u64),
    SlidingOut(u64),
    Shown,
}

/// The slide of a message with timing `t` at `now_ms`, for a slide of `slide_ms`: in
/// while less than a slide has passed since it started, out while less than a slide
/// is left, shown in between. Times before the start count as none passed, times past
/// the end as none left.
pub fn slide_phase(t: StatusTiming, now_ms: u64, slide_ms: u64) -> (p: SlidePhase)
    ensures
        ({
            let elapsed: int = if now_ms >= t.created_ms { now_ms - t.created_ms } else { 0 };
            let remaining: int = if t.expires_ms >= now_ms { t.expires_ms - now_ms } else { 0 };
            p == (if elapsed < slide_ms {
                SlidePhase::SlidingIn(elapsed as u64)
            } else if remaining < slide_ms {
                SlidePhase::SlidingOut(remaining as u64)
            } else {
                SlidePhase::Shown
            })
        }),
{
    let elapsed = if now_ms >= t.created_ms { now_ms - t.created_ms } else { 0 };
    let remaining = if t.expires_ms >= now_ms { t.expires_ms - now_ms } else { 0 };
    if elapsed < slide_ms {
        SlidePhase::SlidingIn(elapsed)
    } else if remaining < slide_ms {
        SlidePhase::SlidingOut(remaining)
    } else {
        SlidePhase::Shown
    }
}

/// Handles a file dropped on the session sidebar: sessions live in the database, so
/// the file is refused with a warning. The drop is always consumed.
pub fn handle_sidebar_paste(path: &str, ext: &str, status: &mut Option<StatusMessage>) -> (consumed:
    bool)
    ensures
        consumed,
        *final(status) matches Some(m) && m.text@ == status_text_spec(sidebar_paste_refusal())
            && m.level == StatusLevel::Warning,
{
    set_status(
        status,
        String::from_str("Session import from files is not supported with database storage."),
        StatusLevel::Warning,
    );
    true
}

} // verus!
