use libllm_tui::injection::{activation_order, injection_layout, Activation, Slot};

fn act(order: i64, depth: usize) -> Activation {
    Activation { order, depth }
}

#[test]
fn activation_order_is_stable_by_order() {
    let e = vec![act(5, 0), act(-1, 0), act(5, 0), act(0, 3)];
    assert_eq!(activation_order(&e), vec![1, 3, 0, 2]);
}

#[test]
fn entries_land_depth_messages_from_the_end() {
    let e = vec![act(0, 1), act(0, 0), act(-1, 1)];
    let out = injection_layout(3, &e);
    assert_eq!(
        out,
        vec![
            Slot::Entry(1),
            Slot::Message(0),
            Slot::Message(1),
            Slot::Entry(2),
            Slot::Entry(0),
            Slot::Message(2),
        ]
    );
}

#[test]
fn deep_entries_go_first() {
    let e = vec![act(0, 2), act(0, 7)];
    let out = injection_layout(2, &e);
    assert_eq!(out, vec![Slot::Entry(0), Slot::Entry(1), Slot::Message(0), Slot::Message(1)]);
}

#[test]
fn no_messages_keeps_entries_in_activation_order() {
    let e = vec![act(3, 1), act(1, 4)];
    assert_eq!(injection_layout(0, &e), vec![Slot::Entry(1), Slot::Entry(0)]);
}

#[test]
fn no_entries_keeps_messages() {
    assert_eq!(injection_layout(2, &vec![]), vec![Slot::Message(0), Slot::Message(1)]);
}

#[test]
fn layout_keeps_every_message_and_entry() {
    let e = vec![act(5, 1), act(1, 0), act(3, 9), act(1, 2)];
    for len in 0..5 {
        let out = injection_layout(len, &e);
        assert_eq!(out.len(), len + e.len());
        let msgs: Vec<usize> = out
            .iter()
            .filter_map(|s| match s {
                Slot::Message(i) => Some(*i),
                Slot::Entry(_) => None,
            })
            .collect();
        assert_eq!(msgs, (0..len).collect::<Vec<usize>>());
    }
}
