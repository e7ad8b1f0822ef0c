use libllm_tui::keys::{KeyCode, KeyEvent, KeyModifiers};
use libllm_tui::status::{StatusLevel, StatusMessage};
use libllm_tui::stream::{
    cancel_generation, context_limit_after_report, handle_stream_token, handle_streaming_key, max_droppable, settle_queue,
    stream_preflight, summary_drop, summary_range, summary_splice_point, take_next_queued, Preflight, ReplyCommit,
    StreamToken, StreamOutcome, StreamState, StreamingKey,
};

fn streaming() -> StreamState {
    StreamState {
        is_streaming: true,
        is_continuation: false,
        buffer: String::new(),
        auto_scroll: false,
        queue: vec![],
    }
}

#[test]
fn tokens_build_the_reply() {
    let mut s = streaming();
    let mut status: Option<StatusMessage> = None;
    let r = handle_stream_token(&mut s, StreamToken::Token("Hel".into()), false, false, &mut status);
    assert_eq!(r, StreamOutcome::Buffered);
    handle_stream_token(&mut s, StreamToken::Token("lo".into()), false, false, &mut status);
    assert_eq!(s.buffer, "Hello");
    assert!(s.auto_scroll);
}

#[test]
fn stale_events_are_ignored() {
    let mut s = streaming();
    s.is_streaming = false;
    let mut status: Option<StatusMessage> = None;
    let r = handle_stream_token(&mut s, StreamToken::Token("x".into()), true, false, &mut status);
    assert_eq!(r, StreamOutcome::Ignored);
    assert_eq!(s.buffer, "");
}

#[test]
fn done_commits_a_new_reply_or_continues() {
    let mut s = streaming();
    s.buffer = "partial".into();
    let mut status: Option<StatusMessage> = None;
    let r = handle_stream_token(&mut s, StreamToken::Done("full".into()), true, false, &mut status);
    assert_eq!(
        r,
        StreamOutcome::Finished { commit: ReplyCommit::NewReply, reply: "full".into(), check_summary: true }
    );
    assert!(!s.is_streaming);
    assert_eq!(s.buffer, "");

    let mut s = streaming();
    s.is_continuation = true;
    let r = handle_stream_token(&mut s, StreamToken::Done("more".into()), true, true, &mut status);
    assert_eq!(
        r,
        StreamOutcome::Finished { commit: ReplyCommit::AppendToHead, reply: "more".into(), check_summary: false }
    );
    assert!(!s.is_continuation);
}

#[test]
fn error_clears_everything_and_reports() {
    let mut s = streaming();
    s.is_continuation = true;
    s.queue = vec!["next".into()];
    s.buffer = "abc".into();
    let mut status: Option<StatusMessage> = None;
    let r = handle_stream_token(&mut s, StreamToken::Error("timeout".into()), false, false, &mut status);
    assert_eq!(r, StreamOutcome::Failed);
    assert!(s.queue.is_empty() && s.buffer.is_empty() && !s.is_streaming && !s.is_continuation);
    let m = status.unwrap();
    assert_eq!(m.text, "Error: timeout");
    assert_eq!(m.level, StatusLevel::Error);
}

#[test]
fn queue_is_taken_oldest_first_and_dropped_when_not_streaming() {
    let mut s = streaming();
    s.is_streaming = false;
    s.queue = vec!["a".into(), "b".into(), "c".into()];
    assert_eq!(take_next_queued(&mut s), Some("a".to_string()));
    assert_eq!(s.queue, vec!["b".to_string(), "c".to_string()]);
    settle_queue(&mut s);
    assert!(s.queue.is_empty());
    assert_eq!(take_next_queued(&mut s), None);

    let mut s = streaming();
    s.queue = vec!["b".into()];
    settle_queue(&mut s);
    assert_eq!(s.queue.len(), 1);
}

#[test]
fn preflight_queues_while_summarizing() {
    let mut s = streaming();
    let mut summarizing = false;
    let mut status: Option<StatusMessage> = None;
    let r = stream_preflight(&mut s, "hi", true, &mut summarizing, true, true, &mut status);
    assert_eq!(r, Preflight::Queued);
    assert_eq!(s.queue, vec!["hi".to_string()]);
    assert!(summarizing);
    assert!(status.is_none());
}

#[test]
fn preflight_blocks_without_model_or_server() {
    let mut s = streaming();
    let mut summarizing = false;
    let mut status: Option<StatusMessage> = None;
    let r = stream_preflight(&mut s, "hi", false, &mut summarizing, false, true, &mut status);
    assert_eq!(r, Preflight::Blocked);
    let m = status.take().unwrap();
    assert_eq!(m.text, "Connecting to API server...");
    assert_eq!(m.level, StatusLevel::Warning);
    let r = stream_preflight(&mut s, "hi", false, &mut summarizing, true, false, &mut status);
    assert_eq!(r, Preflight::Blocked);
    let m = status.take().unwrap();
    assert_eq!(m.text, "Cannot send: API server is not available");
    assert_eq!(m.level, StatusLevel::Error);
    let r = stream_preflight(&mut s, "hi", false, &mut summarizing, true, true, &mut status);
    assert_eq!(r, Preflight::Proceed);
    assert!(s.queue.is_empty());
}

#[test]
fn summary_drop_rules() {
    assert_eq!(summary_drop(2, 3, 4, 10, 9), None);
    // aggressive = 10 - 4 = 6 > dropped 3
    assert_eq!(summary_drop(3, 3, 4, 10, 9), Some(6));
    // dropped beats aggressive
    assert_eq!(summary_drop(8, 3, 4, 10, 9), Some(8));
    // capped by max_drop
    assert_eq!(summary_drop(3, 3, 0, 10, 5), Some(5));
    // keep_last larger than droppable
    assert_eq!(summary_drop(3, 1, 20, 10, 9), Some(3));
}

#[test]
fn summary_range_and_limits() {
    assert_eq!(summary_range(10, 6, 2), (4, 6));
    assert_eq!(max_droppable(0), 0);
    assert_eq!(max_droppable(5), 4);
    assert_eq!(context_limit_after_report(512, 8192), 8192);
    assert_eq!(context_limit_after_report(4096, 8192), 4096);
    assert_eq!(context_limit_after_report(16384, 8192), 8192);
}

#[test]
fn cancel_keeps_the_partial_reply() {
    let mut s = streaming();
    s.buffer = "half".into();
    assert_eq!(cancel_generation(&mut s), Some((ReplyCommit::NewReply, "half".to_string())));
    assert!(!s.is_streaming && s.buffer.is_empty());
    let mut s = streaming();
    s.is_continuation = true;
    s.buffer = "more".into();
    assert_eq!(cancel_generation(&mut s), Some((ReplyCommit::AppendToHead, "more".to_string())));
    assert!(!s.is_continuation);
    let mut s = streaming();
    assert_eq!(cancel_generation(&mut s), None);
}

#[test]
fn streaming_keys() {
    let k = |c| KeyEvent::new(c, KeyModifiers::none());
    let mut status: Option<StatusMessage> = None;

    let mut s = streaming();
    s.queue = vec!["q1".into(), "q2".into()];
    s.buffer = "x".into();
    let r = handle_streaming_key(&mut s, k(KeyCode::Esc), &vec![], &mut status);
    assert_eq!(
        r,
        StreamingKey::Cancelled { partial: Some((ReplyCommit::NewReply, "x".into())), next: Some("q1".into()) }
    );
    assert_eq!(s.queue, vec!["q2".to_string()]);

    let mut s = streaming();
    let lines = vec!["  hello".to_string(), "world  ".to_string()];
    assert_eq!(handle_streaming_key(&mut s, k(KeyCode::Enter), &lines, &mut status), StreamingKey::Queued);
    assert_eq!(s.queue, vec!["hello\nworld".to_string()]);

    let blank = vec!["   ".to_string()];
    assert_eq!(handle_streaming_key(&mut s, k(KeyCode::Enter), &blank, &mut status), StreamingKey::Ignored);

    let cmd = vec!["/retry".to_string()];
    assert_eq!(handle_streaming_key(&mut s, k(KeyCode::Enter), &cmd, &mut status), StreamingKey::Refused);
    assert_eq!(status.as_ref().unwrap().text, "Slash commands cannot be queued during generation");
    assert_eq!(s.queue.len(), 1);

    let ctrl_c = KeyEvent::new(KeyCode::Char('c'), KeyModifiers::control());
    assert_eq!(handle_streaming_key(&mut s, ctrl_c, &lines, &mut status), StreamingKey::Quit);
    assert_eq!(handle_streaming_key(&mut s, k(KeyCode::Char('a')), &lines, &mut status), StreamingKey::ToInput);
}

#[test]
fn finished_summary_is_spliced_after_the_covered_messages() {
    assert_eq!(summary_splice_point(true, true, true, 3, 10, 8, 3), Some(4));
    assert_eq!(summary_splice_point(false, true, true, 3, 10, 8, 3), None);
    assert_eq!(summary_splice_point(true, false, true, 3, 10, 8, 3), None);
    assert_eq!(summary_splice_point(true, true, false, 3, 10, 8, 3), None);
    assert_eq!(summary_splice_point(true, true, true, 0, 10, 8, 3), None);
    assert_eq!(summary_splice_point(true, true, true, 3, 10, 8, 0), None);
    assert_eq!(summary_splice_point(true, true, true, 3, 10, 8, 9), None);
}
