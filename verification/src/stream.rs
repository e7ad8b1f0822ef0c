//! The decisions around a streamed reply: whether a new message may start streaming,
//! what each event of the stream does to the reply being built, what happens to
//! messages queued meanwhile, and when older messages are summarized.

use vstd::prelude::*;
use crate::status::{set_status, status_text_spec, StatusLevel, StatusMessage};
use crate::keys::{KeyCode, KeyEvent};
use crate::input::{join_input_lines, join_lines};
use crate::text::{string_views, string_of, trim, trim_chars};

verus! {

/// An event of the stream that produces a reply.
#[derive(Debug, Clone, PartialEq, Eq)]
pub enum StreamToken {
    /// Another piece of the reply.
    Token(String),
    /// The stream ended; the whole reply.
    Done(String),
    /// The stream failed.
    Error(String),
}

/// Where a finished reply goes.
#[derive(Debug, Clone, Copy, PartialEq, Eq, Structural)]
pub enum ReplyCommit {
    /// Appended to the message at the head (a continuation).
    AppendToHead,
    /// A new assistant message under the head.
    NewReply,
}

/// What the caller does after an event.
#[derive(Debug, Clone, PartialEq, Eq)]
pub enum StreamOutcome {
    /// No stream is running: the event is stale.
    Ignored,
    /// The piece was added to the reply being shown.
    Buffered,
    /// Store `reply` as `commit` says, save, and, when `check_summary`, see whether
    /// older messages should be summarized; then start the next queued message.
    Finished { commit: ReplyCommit, reply: String, check_summary: bool },
    /// The stream failed; the status line says why.
    Failed,
}

/// The streaming part of the application state.
#[derive(Debug, Clone)]
pub struct StreamState {
    pub is_streaming: bool,
    pub is_continuation: bool,
    /// The reply as streamed so far.
    pub buffer: String,
    pub auto_scroll: bool,
    /// Messages sent while a summary was being made, oldest first.
    pub queue: Vec<String>,
}

/// The text of the status line when a stream fails.
pub open spec fn stream_error_text(err: Seq<char>) -> Seq<char> {
    "Error: "@ + err
}

/// Handles one event of the stream. `summarization_enabled` and `summary_pending`
/// (a summary is being made) decide whether a finished reply triggers the summary
/// check.
pub fn handle_stream_token(
    state: &mut StreamState,
    event: StreamToken,
    summarization_enabled: bool,
    summary_pending: bool,
    status: &mut Option<StatusMessage>,
) -> (r: StreamOutcome)
    ensures
        !old(state).is_streaming ==> r == StreamOutcome::Ignored && *final(state) == *old(state)
            && *final(status) == *old(status),
        old(state).is_streaming ==> match event {
            StreamToken::Token(t) => {
                &&& r == StreamOutcome::Buffered
                &&& final(state).buffer@ == old(state).buffer@ + t@
                &&& final(state).auto_scroll
                &&& final(state).is_streaming
                &&& final(state).is_continuation == old(state).is_continuation
                &&& final(state).queue == old(state).queue
                &&& *final(status) == *old(status)
            },
            StreamToken::Done(reply) => {
                &&& r == (StreamOutcome::Finished {
                    commit: if old(state).is_continuation { ReplyCommit::AppendToHead } else { ReplyCommit::NewReply },
                    reply,
                    check_summary: summarization_enabled && !summary_pending,
                })
                &&& final(state).buffer@.len() == 0
                &&& !final(state).is_streaming
                &&& !final(state).is_continuation
                &&& final(state).auto_scroll
                &&& final(state).queue == old(state).queue
                &&& *final(status) == *old(status)
            },
            StreamToken::Error(err) => {
                &&& r == StreamOutcome::Failed
                &&& final(state).buffer@.len() == 0
                &&& !final(state).is_streaming
                &&& !final(state).is_continuation
                &&& final(state).auto_scroll == old(state).auto_scroll
                &&& final(state).queue@.len() == 0
                &&& *final(status) matches Some(m) && m.text@ == status_text_spec(stream_error_text(err@))
                    && m.level == StatusLevel::Error
            },
        },
{
    if !state.is_streaming {
        return StreamOutcome::Ignored;
    }
    match event {
        StreamToken::Token(t) => {
            state.buffer.append(t.as_str());
            state.auto_scroll = true;
            StreamOutcome::Buffered
        },
        StreamToken::Done(reply) => {
            let commit = if state.is_continuation {
                ReplyCommit::AppendToHead
            } else {
                ReplyCommit::NewReply
            };
            state.is_continuation = false;
            state.buffer = String::new();
            state.is_streaming = false;
            state.auto_scroll = true;
            StreamOutcome::Finished { commit, reply, check_summary: summarization_enabled && !summary_pending }
        },
        StreamToken::Error(err) => {
            state.buffer = String::new();
            state.is_streaming = false;
            state.is_continuation = false;
            state.queue = Vec::new();
            let text = String::from_str("Error: ").concat(err.as_str());
            set_status(status, text, StatusLevel::Error);
            StreamOutcome::Failed
        },
    }
}

/// After a reply is stored: the oldest queued message, removed from the queue, which
/// the caller starts streaming next.
pub fn take_next_queued(state: &mut StreamState) -> (r: Option<String>)
    ensures
        old(state).queue@.len() == 0 ==> r is None && *final(state) == *old(state),
        old(state).queue@.len() > 0 ==> r == Some(old(state).queue@[0]) && final(state).queue@ == old(state).queue@.drop_first()
            && final(state).is_streaming == old(state).is_streaming && final(state).buffer == old(state).buffer
            && final(state).is_continuation == old(state).is_continuation && final(state).auto_scroll == old(state).auto_scroll,
{
    if state.queue.len() == 0 {
        None
    } else {
        Some(state.queue.remove(0))
    }
}

/// After starting the queued message: when it did not start streaming, the rest of
/// the queue is dropped.
pub fn settle_queue(state: &mut StreamState)
    ensures
        final(state).queue@ == (if old(state).is_streaming { old(state).queue@ } else { Seq::empty() }),
        final(state).is_streaming == old(state).is_streaming,
        final(state).is_continuation == old(state).is_continuation,
        final(state).buffer == old(state).buffer,
        final(state).auto_scroll == old(state).auto_scroll,
{
    if !state.is_streaming {
        state.queue = Vec::new();
    }
}

/// Whether a new message may start streaming.
#[derive(Debug, Clone, Copy, PartialEq, Eq, Structural)]
pub enum Preflight {
    Proceed,
    /// A summary is being made: the message waits in the queue.
    Queued,
    /// It cannot be sent now; the status line says why.
    Blocked,
}

pub open spec fn connecting_text() -> Seq<char> {
    "Connecting to API server..."@
}

pub open spec fn api_unavailable_text() -> Seq<char> {
    "Cannot send: API server is not available"@
}

/// Decides whether `content` may be sent: while a summary is being made it is queued
/// (and summarizing is flagged); without a model name yet, or with the server down,
/// it is refused with a status message.
pub fn stream_preflight(
    state: &mut StreamState,
    content: &str,
    summary_pending: bool,
    is_summarizing: &mut bool,
    model_known: bool,
    api_available: bool,
    status: &mut Option<StatusMessage>,
) -> (r: Preflight)
    ensures
        summary_pending ==> r == Preflight::Queued && final(state).queue@.len() == old(state).queue@.len() + 1
            && final(state).queue@.drop_last() == old(state).queue@ && final(state).queue@.last()@ == content@
            && *final(is_summarizing) && *final(status) == *old(status),
        !summary_pending ==> final(state).queue == old(state).queue && *final(is_summarizing) == *old(is_summarizing),
        !summary_pending && !model_known ==> r == Preflight::Blocked && (*final(status) matches Some(m)
            && m.text@ == status_text_spec(connecting_text()) && m.level == StatusLevel::Warning),
        !summary_pending && model_known && !api_available ==> r == Preflight::Blocked && (*final(status) matches Some(m)
            && m.text@ == status_text_spec(api_unavailable_text()) && m.level == StatusLevel::Error),
        !summary_pending && model_known && api_available ==> r == Preflight::Proceed && *final(status) == *old(status),
        final(state).is_streaming == old(state).is_streaming,
        final(state).is_continuation == old(state).is_continuation,
        final(state).buffer == old(state).buffer,
        final(state).auto_scroll == old(state).auto_scroll,
{
    if summary_pending {
        *is_summarizing = true;
        state.queue.push(String::from_str(content));
        return Preflight::Queued;
    }
    if !model_known {
        set_status(status, String::from_str("Connecting to API server..."), StatusLevel::Warning);
        return Preflight::Blocked;
    }
    if !api_available {
        set_status(status, String::from_str("Cannot send: API server is not available"), StatusLevel::Error);
        return Preflight::Blocked;
    }
    Preflight::Proceed
}

/// How many of the oldest droppable messages the prompt search may drop: all but
/// the last one.
pub fn max_droppable(droppable: usize) -> (r: usize)
    ensures
        r == (if droppable == 0 { 0 } else { droppable - 1 }),
        r < usize::MAX,
{
    if droppable == 0 { 0 } else { droppable - 1 }
}

/// After a reply, when `dropped` (the smallest drop that fits) reaches the trigger
/// threshold: how many messages the summary covers. It drops at least all but
/// `keep_last` of the droppable messages, and never more than `max_drop`.
pub fn summary_drop(dropped: usize, trigger_threshold: usize, keep_last: usize, droppable: usize, max_drop: usize) -> (r: Option<usize>)
    ensures
        dropped < trigger_threshold ==> r is None,
        dropped >= trigger_threshold ==> r == Some(({
            let aggressive: int = if droppable >= keep_last { droppable - keep_last } else { 0 };
            let m: int = if aggressive >= dropped { aggressive } else { dropped as int };
            if m <= max_drop { m } else { max_drop as int }
        }) as usize),
{
    if dropped < trigger_threshold {
        return None;
    }
    let aggressive = if droppable >= keep_last { droppable - keep_last } else { 0 };
    let m = if aggressive >= dropped { aggressive } else { dropped };
    Some(if m <= max_drop { m } else { max_drop })
}

/// The messages of the branch that the summary covers: they start where the
/// summary-aware part of the branch starts and run for `split` messages.
pub fn summary_range(branch_len: usize, summary_aware_len: usize, split: usize) -> (r: (usize, usize))
    requires
        summary_aware_len <= branch_len,
        split <= summary_aware_len,
    ensures
        r.0 == branch_len - summary_aware_len,
        r.1 == r.0 + split,
        r.1 <= branch_len,
{
    let start = branch_len - summary_aware_len;
    (start, start + split)
}

/// The context limit after the server reports its own: reports below 1024 tokens are
/// ignored; otherwise the smaller of the two stands.
pub fn context_limit_after_report(server: usize, local_limit: usize) -> (r: usize)
    ensures
        server < 1024 ==> r == local_limit,
        server >= 1024 ==> r == (if server < local_limit { server } else { local_limit }),
{
    if server < 1024 {
        local_limit
    } else if server < local_limit {
        server
    } else {
        local_limit
    }
}

/// Stops the reply being streamed. What came so far is kept: returned with where it
/// goes (nothing when nothing came).
pub fn cancel_generation(state: &mut StreamState) -> (r: Option<(ReplyCommit, String)>)
    ensures
        old(state).buffer@.len() == 0 ==> r is None,
        old(state).buffer@.len() > 0 ==> (r matches Some((c, t)) && t@ == old(state).buffer@
            && c == (if old(state).is_continuation { ReplyCommit::AppendToHead } else { ReplyCommit::NewReply })),
        final(state).buffer@.len() == 0,
        !final(state).is_streaming,
        !final(state).is_continuation,
        final(state).auto_scroll,
        final(state).queue == old(state).queue,
{
    let commit = if state.is_continuation { ReplyCommit::AppendToHead } else { ReplyCommit::NewReply };
    let mut buffer = String::new();
    std::mem::swap(&mut buffer, &mut state.buffer);
    state.is_continuation = false;
    state.is_streaming = false;
    state.auto_scroll = true;
    let n = crate::text::char_count(buffer.as_str());
    if n == 0 {
        None
    } else {
        Some((commit, buffer))
    }
}

/// What a key does while a reply streams.
#[derive(Debug, Clone, PartialEq, Eq)]
pub enum StreamingKey {
    /// Esc: the reply was stopped; store its partial text (if any) as said, then send
    /// the oldest queued message (if any), which left the queue.
    Cancelled { partial: Option<(ReplyCommit, String)>, next: Option<String> },
    /// Ctrl-C: quit.
    Quit,
    /// Enter on a blank input: nothing happens.
    Ignored,
    /// Enter on a slash command: refused, the status line says so.
    Refused,
    /// Enter: the message was queued; the input is cleared.
    Queued,
    /// Any other key edits the input.
    ToInput,
}

pub open spec fn no_queued_commands_text() -> Seq<char> {
    "Slash commands cannot be queued during generation"@
}

/// Handles a key while a reply streams; `lines` is the input.
pub fn handle_streaming_key(state: &mut StreamState, key: KeyEvent, lines: &Vec<String>, status: &mut Option<StatusMessage>) -> (r: StreamingKey)
    ensures
        ({
            let text = trim(join_lines(string_views(lines@)));
            let plain = !key.modifiers.shift && !key.modifiers.control && !key.modifiers.alt;
            if key.code == KeyCode::Esc {
                &&& r matches StreamingKey::Cancelled { partial, next }
                &&& (old(state).buffer@.len() == 0 <==> partial is None)
                &&& (partial matches Some((c, t)) ==> t@ == old(state).buffer@
                    && c == (if old(state).is_continuation { ReplyCommit::AppendToHead } else { ReplyCommit::NewReply }))
                &&& !final(state).is_streaming && !final(state).is_continuation && final(state).buffer@.len() == 0
                &&& if old(state).queue@.len() == 0 {
                    next is None && final(state).queue@.len() == 0
                } else {
                    next == Some(old(state).queue@[0]) && final(state).queue@ == old(state).queue@.drop_first()
                }
                &&& *final(status) == *old(status)
            } else if key.code == KeyCode::Char('c') && key.modifiers.control {
                r == StreamingKey::Quit && *final(state) == *old(state) && *final(status) == *old(status)
            } else if key.code == KeyCode::Enter && plain {
                &&& final(state).is_streaming == old(state).is_streaming
                &&& final(state).buffer == old(state).buffer
                &&& if text.len() == 0 {
                    r == StreamingKey::Ignored && final(state).queue == old(state).queue && *final(status) == *old(status)
                } else if text[0] == '/' {
                    r == StreamingKey::Refused && final(state).queue == old(state).queue
                        && (*final(status) matches Some(m) && m.text@ == status_text_spec(no_queued_commands_text())
                        && m.level == StatusLevel::Warning)
                } else {
                    r == StreamingKey::Queued && final(state).queue@.len() == old(state).queue@.len() + 1
                        && final(state).queue@.drop_last() == old(state).queue@ && final(state).queue@.last()@ == text
                        && *final(status) == *old(status)
                }
            } else {
                r == StreamingKey::ToInput && *final(state) == *old(state) && *final(status) == *old(status)
            }
        }),
{
    if key.code == KeyCode::Esc {
        let partial = cancel_generation(state);
        let next = take_next_queued(state);
        return StreamingKey::Cancelled { partial, next };
    }
    if key.code == KeyCode::Char('c') && key.modifiers.control {
        return StreamingKey::Quit;
    }
    if key.code == KeyCode::Enter && !key.modifiers.shift && !key.modifiers.control && !key.modifiers.alt {
        let joined = join_input_lines(lines.as_slice());
        let t = trim_chars(joined.as_slice());
        if t.len() == 0 {
            return StreamingKey::Ignored;
        }
        if t[0] == '/' {
            set_status(status, String::from_str("Slash commands cannot be queued during generation"), StatusLevel::Warning);
            return StreamingKey::Refused;
        }
        state.queue.push(string_of(t.as_slice()));
        return StreamingKey::Queued;
    }
    StreamingKey::ToInput
}


/// Where a finished summary goes into the branch: after the message at the returned
/// index of the branch's `branch_len` messages. It goes in only when the branch head
/// is still the one the summary was made for, summarization is on, the summary came
/// back, and messages were dropped for it (`dropped`). The summary-aware part of the
/// branch is its last `aware_len` messages, and `split_idx` is how many of those the
/// summary covers; it is spliced after the last of them, when there is one within the
/// branch.
pub open spec fn summary_splice_spec(
    head_matches: bool,
    enabled: bool,
    summary_ok: bool,
    dropped: nat,
    branch_len: nat,
    aware_len: nat,
    split_idx: nat,
) -> Option<nat> {
    let boundary = branch_len - aware_len;
    if head_matches && enabled && summary_ok && dropped > 0 && split_idx > 0 && boundary + split_idx
        - 1 < branch_len {
        Some((boundary + split_idx - 1) as nat)
    } else {
        None
    }
}

/// Where a finished summary goes into the branch (see `summary_splice_spec`).
pub fn summary_splice_point(
    head_matches: bool,
    enabled: bool,
    summary_ok: bool,
    dropped: usize,
    branch_len: usize,
    aware_len: usize,
    split_idx: usize,
) -> (r: Option<usize>)
    requires
        aware_len <= branch_len,
        head_matches && enabled && summary_ok && dropped > 0 ==> branch_len - aware_len + split_idx
            >= 1 && branch_len - aware_len + split_idx <= usize::MAX,
    ensures
        match summary_splice_spec(
            head_matches,
            enabled,
            summary_ok,
            dropped as nat,
            branch_len as nat,
            aware_len as nat,
            split_idx as nat,
        ) {
            Some(i) => r == Some(i as usize),
            None => r is None,
        },
{
    if !(head_matches && enabled && summary_ok && dropped > 0) {
        return None;
    }
    let boundary = branch_len - aware_len;
    let insert = boundary + split_idx - 1;
    if split_idx > 0 && insert < branch_len {
        Some(insert)
    } else {
        None
    }
}

} // verus!
