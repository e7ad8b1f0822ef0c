use libllm_tui::status_bar::{left_parts, right_parts, truncate_str, CardAssembly, ChatPolicy, RightParts};

#[test]
fn truncation_respects_char_boundaries() {
    assert_eq!(truncate_str("hello", 3), "hel");
    assert_eq!(truncate_str("héllo", 2), "h");
    assert_eq!(truncate_str("héllo", 3), "hé");
    assert_eq!(truncate_str("hi", 10), "hi");
}

#[test]
fn left_part_of_a_single_chat() {
    let l = left_parts(1, ChatPolicy::RoundRobin, CardAssembly::JoinCards, 0, "libllm 1.0", 100);
    assert_eq!(l.group_chip, None);
    assert_eq!(l.missing_badge, None);
    assert_eq!(l.version, " libllm 1.0");
    let l = left_parts(0, ChatPolicy::RoundRobin, CardAssembly::JoinCards, 0, "libllm 1.0", 5);
    assert_eq!(l.version, " libl");
}

#[test]
fn left_part_of_a_group_chat() {
    let l = left_parts(3, ChatPolicy::WeightedRandom, CardAssembly::SwapCards, 2, "v1", 100);
    assert_eq!(l.group_chip.as_deref(), Some("[3 chars · WR · swap] "));
    assert_eq!(l.missing_badge.as_deref(), Some("[2 missing] "));
    assert_eq!(l.version, " v1");
    let chip_len = "[3 chars · WR · swap] ".len();
    let l = left_parts(3, ChatPolicy::RoundRobin, CardAssembly::JoinCards, 0, "v1", chip_len + 2);
    assert_eq!(l.group_chip.as_deref(), Some("[3 chars · RR · join] "));
    assert_eq!(l.version, " v");
}

#[test]
fn right_part_slides_in() {
    let hints = "Tab: switch focus | Ctrl+C: quit ";
    assert_eq!(
        right_parts(hints, None, 0, 80),
        RightParts { hints: Some(hints.into()), notification: None }
    );
    assert_eq!(
        right_parts(hints, Some("Saved"), 0, 80),
        RightParts { hints: Some(hints.into()), notification: None }
    );
    let r = right_parts(hints, Some("Saved"), 3, 80);
    assert_eq!(r.notification.as_deref(), Some(" Sa"));
    assert_eq!(r.hints.as_deref(), Some(hints));
    let r = right_parts(hints, Some("Saved"), 10, 80);
    assert_eq!(r.notification.as_deref(), Some(" Saved    "));
    let r = right_parts(hints, Some("Saved"), 50, 10);
    assert_eq!(r.notification.as_deref(), Some(" Saved    "));
    assert_eq!(r.hints, None);
}
