use libllm_tui::status::{
    expire_status, handle_sidebar_paste, set_status, set_status_at, slide_phase, status_text,
    status_timing, SlidePhase, StatusLevel, StatusMessage, StatusTiming,
};

#[test]
fn short_status_text_is_kept() {
    assert_eq!(status_text("Saved.".to_owned()), "Saved.");
    let exactly = "x".repeat(64);
    assert_eq!(status_text(exactly.clone()), exactly);
}

#[test]
fn long_status_text_is_cut_with_ellipsis() {
    let long = "y".repeat(65);
    let shown = status_text(long);
    assert_eq!(shown, format!("{}...", "y".repeat(61)));
    assert_eq!(shown.len(), 64);
}

#[test]
fn status_text_cuts_on_char_boundary() {
    // 60 ASCII bytes, then a 3-byte character straddling byte 61, then more text.
    let text = format!("{}€€€", "a".repeat(60));
    let shown = status_text(text);
    assert_eq!(shown, format!("{}...", "a".repeat(60)));
}

#[test]
fn set_status_replaces_message() {
    let mut status: Option<StatusMessage> = None;
    set_status(&mut status, "first".to_owned(), StatusLevel::Info);
    set_status(&mut status, "second".to_owned(), StatusLevel::Error);
    let m = status.unwrap();
    assert_eq!(m.text, "second");
    assert_eq!(m.level, StatusLevel::Error);
}

#[test]
fn sidebar_paste_is_refused_with_warning() {
    let mut status: Option<StatusMessage> = None;
    assert!(handle_sidebar_paste("/tmp/session.json", "json", &mut status));
    let m = status.unwrap();
    assert_eq!(m.level, StatusLevel::Warning);
    assert_eq!(m.text, "Session import from files is not supported with database stor...");
}

#[test]
fn status_expires_after_its_duration() {
    assert_eq!(status_timing(false, 1000, 3000, 300), StatusTiming { created_ms: 1000, expires_ms: 4000 });
    assert_eq!(status_timing(true, 1000, 3000, 300), StatusTiming { created_ms: 700, expires_ms: 4000 });
    let mut status: Option<StatusMessage> = None;
    let mut timing: Option<StatusTiming> = None;
    set_status_at(&mut status, &mut timing, "Saved.".to_owned(), StatusLevel::Info, 1000, 3000, 300);
    assert_eq!(timing, Some(StatusTiming { created_ms: 1000, expires_ms: 4000 }));
    assert!(expire_status(&mut status, &mut timing, 3999));
    assert!(status.is_some());
    set_status_at(&mut status, &mut timing, "Again.".to_owned(), StatusLevel::Warning, 2000, 3000, 300);
    assert_eq!(timing, Some(StatusTiming { created_ms: 1700, expires_ms: 5000 }));
    assert!(expire_status(&mut status, &mut timing, 5000));
    assert!(status.is_none() && timing.is_none());
    assert!(!expire_status(&mut status, &mut timing, 9000));
}

#[test]
fn status_slides_in_and_out() {
    let t = StatusTiming { created_ms: 1000, expires_ms: 4000 };
    assert_eq!(slide_phase(t, 1100, 300), SlidePhase::SlidingIn(100));
    assert_eq!(slide_phase(t, 900, 300), SlidePhase::SlidingIn(0));
    assert_eq!(slide_phase(t, 2000, 300), SlidePhase::Shown);
    assert_eq!(slide_phase(t, 3800, 300), SlidePhase::SlidingOut(200));
    assert_eq!(slide_phase(t, 4500, 300), SlidePhase::SlidingOut(0));
}
