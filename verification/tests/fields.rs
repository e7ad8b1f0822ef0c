use libllm_tui::fields::{
    FieldDialog, FieldDialogAction, FieldVerdict, TabSection, TabbedFieldAction, TabbedFieldDialog,
};
use libllm_tui::keys::{KeyCode, KeyEvent, KeyModifiers};

fn k(code: KeyCode) -> KeyEvent {
    KeyEvent::new(code, KeyModifiers::none())
}

const OK: FieldVerdict = FieldVerdict { char_accepted: true, value_valid: true };

fn section(labels: Vec<&'static str>, values: &[&str]) -> TabSection {
    let values: Vec<String> = values.iter().map(|s| s.to_string()).collect();
    TabSection {
        title: "General",
        labels,
        original_values: values.clone(),
        values,
        multiline_fields: Vec::new(),
        boolean_fields: Vec::new(),
        selector_fields: Vec::new(),
        action_fields: Vec::new(),
        separator_fields: Vec::new(),
        placeholder_fields: Vec::new(),
        placeholder_text: None,
        locked_fields: Vec::new(),
        validated_fields: Vec::new(),
        color_preview_fields: Vec::new(),
        selected: 0,
    }
}

#[test]
fn tabbed_tabs_wrap_both_ways() {
    let mut d = TabbedFieldDialog::new(
        "Config",
        vec![section(vec!["a"], &["1"]), section(vec!["b"], &["2"]), section(vec!["c"], &["3"])],
    );
    d.handle_key(k(KeyCode::BackTab), OK);
    assert_eq!(d.current_tab(), 2);
    d.handle_key(k(KeyCode::Tab), OK);
    assert_eq!(d.current_tab(), 0);
    let shift_tab = KeyEvent::new(KeyCode::Char('\t'), KeyModifiers::shift());
    d.handle_key(shift_tab, OK);
    assert_eq!(d.current_tab(), 2);
}

#[test]
fn tabbed_navigation_skips_separators_and_edits() {
    let mut s = section(vec!["a", "--", "b"], &["x", "", "y"]);
    s.separator_fields = vec![1];
    let mut d = TabbedFieldDialog::new("Config", vec![s]);
    d.handle_key(k(KeyCode::Down), OK);
    assert_eq!(d.sections()[0].selected, 2);
    d.handle_key(k(KeyCode::Up), OK);
    assert_eq!(d.sections()[0].selected, 0);
    d.handle_key(k(KeyCode::Enter), OK);
    assert!(d.is_editing());
    d.handle_key(k(KeyCode::Char('z')), OK);
    d.handle_key(k(KeyCode::Home), OK);
    d.handle_key(k(KeyCode::Delete), OK);
    let refuse = FieldVerdict { char_accepted: false, value_valid: true };
    d.handle_key(k(KeyCode::Char('q')), refuse);
    assert!(d.reject_flash().is_some());
    assert_eq!(d.sections()[0].values[0], "z");
    let invalid = FieldVerdict { char_accepted: true, value_valid: false };
    d.handle_key(k(KeyCode::Enter), invalid);
    assert!(d.is_editing());
    d.handle_key(k(KeyCode::Enter), OK);
    assert!(!d.is_editing());
    assert!(d.has_changes());
}

#[test]
fn tabbed_enter_by_field_kind() {
    let mut s = section(vec!["flag", "pick", "run", "locked", "body", "color"], &["true", "", "", "v", "long", "#fff"]);
    s.boolean_fields = vec![0];
    s.selector_fields = vec![1];
    s.action_fields = vec![2];
    s.locked_fields = vec![3];
    s.multiline_fields = vec![4];
    s.color_preview_fields = vec![5];
    let mut d = TabbedFieldDialog::new("Theme", vec![s]);
    d.handle_key(k(KeyCode::Enter), OK);
    assert_eq!(d.sections()[0].values[0], "false");
    d.handle_key(k(KeyCode::Down), OK);
    assert_eq!(d.handle_key(k(KeyCode::Enter), OK), TabbedFieldAction::OpenSelector { section: 0, field: 1 });
    d.handle_key(k(KeyCode::Down), OK);
    assert_eq!(d.handle_key(k(KeyCode::Enter), OK), TabbedFieldAction::InvokeAction { section: 0, field: 2 });
    d.handle_key(k(KeyCode::Down), OK);
    assert_eq!(d.handle_key(k(KeyCode::Enter), OK), TabbedFieldAction::Continue);
    assert!(!d.is_editing());
    d.handle_key(k(KeyCode::Down), OK);
    d.handle_key(k(KeyCode::Enter), OK);
    assert!(d.multiline_open());
    d.close_multiline_editor("line one\nline two".to_owned());
    assert_eq!(d.sections()[0].values[4], "line one\nline two");
    d.handle_key(k(KeyCode::Down), OK);
    d.handle_key(k(KeyCode::Delete), OK);
    assert_eq!(d.sections()[0].values[5], "");
    assert_eq!(d.handle_key(k(KeyCode::Esc), OK), TabbedFieldAction::Close);
}

#[test]
fn field_dialog_skips_hidden_and_toggles() {
    let values: Vec<String> = vec!["a".into(), "b".into(), "false".into()];
    let mut d = FieldDialog::new("Persona", vec!["Name", "Secret", "Flag"], values, Vec::new())
        .with_boolean_fields(vec![2]);
    d.set_hidden_fields(vec![1]);
    d.handle_key(k(KeyCode::Down));
    assert_eq!(d.selected(), 2);
    d.handle_key(k(KeyCode::Enter));
    assert_eq!(d.values()[2], "true");
    assert!(d.has_changes());
    d.handle_key(k(KeyCode::Up));
    assert_eq!(d.selected(), 0);
    d.handle_key(k(KeyCode::Enter));
    d.handle_key(k(KeyCode::Char('!')));
    d.handle_key(k(KeyCode::Esc));
    assert_eq!(d.values()[0], "a!");
    assert_eq!(d.handle_key(k(KeyCode::Esc)), FieldDialogAction::Close);
}

#[test]
fn field_dialog_selector_and_locked() {
    let values: Vec<String> = vec!["x".into(), "y".into()];
    let mut d = FieldDialog::new("Character", vec!["Preset", "Name"], values, Vec::new())
        .with_selector_fields(vec![0])
        .with_locked_fields(vec![1]);
    assert!(d.is_selector(0));
    assert_eq!(d.handle_key(k(KeyCode::Enter)), FieldDialogAction::OpenSelector(0));
    d.handle_key(k(KeyCode::Down));
    assert_eq!(d.handle_key(k(KeyCode::Enter)), FieldDialogAction::Continue);
    assert!(!d.has_changes());
}

use libllm_tui::layout::Rect;
use libllm_tui::theme::{color_input_checked, parse_color};

fn make_section(title: &'static str, labels: &[&'static str]) -> TabSection {
    let values: Vec<String> = labels.iter().map(|_| String::new()).collect();
    let original_values = values.clone();
    TabSection {
        title,
        labels: labels.to_vec(),
        values,
        original_values,
        multiline_fields: Vec::new(),
        boolean_fields: Vec::new(),
        selector_fields: Vec::new(),
        action_fields: Vec::new(),
        separator_fields: Vec::new(),
        placeholder_fields: Vec::new(),
        placeholder_text: None,
        locked_fields: Vec::new(),
        validated_fields: Vec::new(),
        color_preview_fields: Vec::new(),
        selected: 0,
    }
}

fn key(code: KeyCode, m: KeyModifiers) -> KeyEvent {
    KeyEvent::new(code, m)
}

/// The verdicts a color field's validation gives.
fn color_verdict(d: &TabbedFieldDialog) -> FieldVerdict {
    let s = &d.sections()[d.current_tab()];
    let v = &s.values[s.selected];
    let valid = color_input_checked(v) && parse_color(v).is_some();
    FieldVerdict { char_accepted: true, value_valid: valid }
}

#[test]
fn tab_wraps_forward() {
    let sections = vec![make_section("A", &["f"]), make_section("B", &["f"]), make_section("C", &["f"])];
    let mut d = TabbedFieldDialog::new(" test ", sections);
    assert_eq!(d.current_tab(), 0);
    d.handle_key(key(KeyCode::Tab, KeyModifiers::none()), OK);
    assert_eq!(d.current_tab(), 1);
    d.handle_key(key(KeyCode::Tab, KeyModifiers::none()), OK);
    assert_eq!(d.current_tab(), 2);
    d.handle_key(key(KeyCode::Tab, KeyModifiers::none()), OK);
    assert_eq!(d.current_tab(), 0);
}

#[test]
fn tab_wraps_backward_via_backtab() {
    let sections = vec![make_section("A", &["f"]), make_section("B", &["f"])];
    let mut d = TabbedFieldDialog::new(" test ", sections);
    d.handle_key(key(KeyCode::BackTab, KeyModifiers::shift()), OK);
    assert_eq!(d.current_tab(), 1);
    d.handle_key(key(KeyCode::BackTab, KeyModifiers::shift()), OK);
    assert_eq!(d.current_tab(), 0);
}

#[test]
fn tab_wraps_backward_via_shift_tab_char() {
    let sections = vec![make_section("A", &["f"]), make_section("B", &["f"])];
    let mut d = TabbedFieldDialog::new(" test ", sections);
    d.handle_key(key(KeyCode::Char('\t'), KeyModifiers::shift()), OK);
    assert_eq!(d.current_tab(), 1);
}

#[test]
fn has_changes_detects_edits_in_any_section() {
    let sections = vec![make_section("A", &["f"]), make_section("B", &["f"])];
    let mut d = TabbedFieldDialog::new(" test ", sections);
    assert!(!d.has_changes());
    d.handle_key(key(KeyCode::Tab, KeyModifiers::none()), OK);
    d.handle_key(key(KeyCode::Enter, KeyModifiers::none()), OK);
    for c in "changed".chars() {
        d.handle_key(key(KeyCode::Char(c), KeyModifiers::none()), OK);
    }
    d.handle_key(key(KeyCode::Enter, KeyModifiers::none()), OK);
    assert_eq!(d.sections()[1].values[0], "changed");
    assert!(d.has_changes());
}

#[test]
fn down_arrow_moves_within_section_only() {
    let sections = vec![make_section("A", &["x", "y", "z"]), make_section("B", &["p", "q"])];
    let mut d = TabbedFieldDialog::new(" test ", sections);
    d.handle_key(key(KeyCode::Down, KeyModifiers::none()), OK);
    assert_eq!(d.sections()[0].selected, 1);
    d.handle_key(key(KeyCode::Down, KeyModifiers::none()), OK);
    assert_eq!(d.sections()[0].selected, 2);
    d.handle_key(key(KeyCode::Down, KeyModifiers::none()), OK);
    assert_eq!(d.sections()[0].selected, 2);
    assert_eq!(d.sections()[1].selected, 0);
}

#[test]
fn tab_disabled_while_editing() {
    let sections = vec![make_section("A", &["x"]), make_section("B", &["y"])];
    let mut d = TabbedFieldDialog::new(" test ", sections);
    d.handle_key(key(KeyCode::Enter, KeyModifiers::none()), OK);
    assert!(d.is_editing());
    d.handle_key(key(KeyCode::Tab, KeyModifiers::none()), OK);
    assert_eq!(d.current_tab(), 0);
}

#[test]
fn boolean_toggles_on_enter() {
    let mut section = make_section("A", &["Flag"]);
    section.boolean_fields = vec![0];
    section.values[0] = "false".to_owned();
    let mut d = TabbedFieldDialog::new(" test ", vec![section]);
    d.handle_key(key(KeyCode::Enter, KeyModifiers::none()), OK);
    assert_eq!(d.sections()[0].values[0], "true");
    d.handle_key(key(KeyCode::Enter, KeyModifiers::none()), OK);
    assert_eq!(d.sections()[0].values[0], "false");
}

#[test]
fn action_field_dispatches_invoke_action() {
    let mut section = make_section("A", &["Reset"]);
    section.action_fields = vec![0];
    let mut d = TabbedFieldDialog::new(" test ", vec![section]);
    let action = d.handle_key(key(KeyCode::Enter, KeyModifiers::none()), OK);
    match action {
        TabbedFieldAction::InvokeAction { section, field } => {
            assert_eq!(section, 0);
            assert_eq!(field, 0);
        }
        _ => panic!("expected InvokeAction"),
    }
}

#[test]
fn selector_field_dispatches_open_selector() {
    let mut section = make_section("A", &["Preset"]);
    section.selector_fields = vec![0];
    let mut d = TabbedFieldDialog::new(" test ", vec![section]);
    let action = d.handle_key(key(KeyCode::Enter, KeyModifiers::none()), OK);
    match action {
        TabbedFieldAction::OpenSelector { section, field } => {
            assert_eq!(section, 0);
            assert_eq!(field, 0);
        }
        _ => panic!("expected OpenSelector"),
    }
}

#[test]
fn invalid_color_rejected_on_commit() {
    let mut section = make_section("A", &["Color"]);
    section.validated_fields = vec![0];
    let mut d = TabbedFieldDialog::new(" test ", vec![section]);
    d.handle_key(key(KeyCode::Enter, KeyModifiers::none()), OK);
    for c in "notacolor".chars() {
        d.handle_key(key(KeyCode::Char(c), KeyModifiers::none()), OK);
    }
    let v = color_verdict(&d);
    d.handle_key(key(KeyCode::Enter, KeyModifiers::none()), v);
    assert!(d.is_editing());
    assert!(d.reject_flash().is_some());
}

#[test]
fn valid_color_accepted_on_commit() {
    let mut section = make_section("A", &["Color"]);
    section.validated_fields = vec![0];
    let mut d = TabbedFieldDialog::new(" test ", vec![section]);
    d.handle_key(key(KeyCode::Enter, KeyModifiers::none()), OK);
    for c in "#ff0000".chars() {
        d.handle_key(key(KeyCode::Char(c), KeyModifiers::none()), OK);
    }
    let v = color_verdict(&d);
    d.handle_key(key(KeyCode::Enter, KeyModifiers::none()), v);
    assert!(!d.is_editing());
    assert_eq!(d.sections()[0].values[0], "#ff0000");
}

#[test]
fn delete_key_clears_color_field_with_value() {
    let mut section = make_section("A", &["Color"]);
    section.color_preview_fields = vec![0];
    section.validated_fields = vec![0];
    section.values[0] = "#ff0000".to_owned();
    let mut d = TabbedFieldDialog::new(" test ", vec![section]);
    d.handle_key(key(KeyCode::Delete, KeyModifiers::none()), OK);
    assert_eq!(d.sections()[0].values[0], "");
}

#[test]
fn esc_at_top_level_closes() {
    let sections = vec![make_section("A", &["x"])];
    let mut d = TabbedFieldDialog::new(" test ", sections);
    let action = d.handle_key(key(KeyCode::Esc, KeyModifiers::none()), OK);
    assert!(matches!(action, TabbedFieldAction::Close));
}

#[test]
fn mouse_click_on_tab_bar_switches_section() {
    let sections = vec![make_section("A", &["x"]), make_section("B", &["y"]), make_section("C", &["z"])];
    let mut d = TabbedFieldDialog::new(" test ", sections);
    let area = Rect::new(0, 0, 80, 20);
    let (w, h) = d.dialog_dimensions();
    let dialog_x = (area.width.saturating_sub(w)) / 2;
    let dialog_y = (area.height.saturating_sub(h)) / 2;
    let tab_bar_y = dialog_y + 2;
    let b_col = dialog_x + 2 + "[ A ] ".len() as u16 + 2;
    let handled = d.handle_mouse_click(area, b_col, tab_bar_y);
    assert!(handled);
    assert_eq!(d.current_tab(), 1);
}

#[test]
fn mouse_click_on_field_row_selects_field() {
    let sections = vec![make_section("A", &["first", "second", "third"])];
    let mut d = TabbedFieldDialog::new(" test ", sections);
    let area = Rect::new(0, 0, 80, 20);
    let (w, h) = d.dialog_dimensions();
    let dialog_x = (area.width.saturating_sub(w)) / 2;
    let dialog_y = (area.height.saturating_sub(h)) / 2;
    let fields_start_y = dialog_y + 4;
    let handled = d.handle_mouse_click(area, dialog_x + 5, fields_start_y + 1);
    assert!(handled);
    assert_eq!(d.sections()[0].selected, 1);
}

#[test]
fn mouse_click_outside_is_not_handled() {
    let sections = vec![make_section("A", &["first"])];
    let mut d = TabbedFieldDialog::new(" test ", sections);
    assert!(!d.handle_mouse_click(Rect::new(0, 0, 80, 20), 0, 0));
}
