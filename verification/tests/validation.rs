use libllm_tui::builders::{
    open_character_editor, open_entry_editor, open_entry_editor_non_selective,
    open_instruct_editor, open_persona_editor, open_reasoning_editor, open_system_prompt_editor,
    open_template_editor, sync_entry_hidden_fields,
};
use libllm_tui::fields::FieldDialogAction;
use libllm_tui::keys::{KeyCode, KeyEvent, KeyModifiers};
use libllm_tui::validation::{decimal_accepts_char, max_digits, FieldValidation};

fn k(code: KeyCode) -> KeyEvent {
    KeyEvent::new(code, KeyModifiers::none())
}

fn strings(n: usize) -> Vec<String> {
    (0..n).map(|_| String::new()).collect()
}

#[test]
fn digit_counts() {
    assert_eq!(max_digits(0), 1);
    assert_eq!(max_digits(9), 1);
    assert_eq!(max_digits(10), 2);
    assert_eq!(max_digits(32767), 5);
    assert_eq!(max_digits(u64::MAX), 20);
}

#[test]
fn int_rule() {
    let v = FieldValidation::Int { min: -1, max: 32767 };
    assert!(v.accepts_char("", '-'));
    assert!(!v.accepts_char("1", '-'));
    assert!(v.accepts_char("3276", '7'));
    assert!(!v.accepts_char("32767", '1'));
    assert!(v.accepts_char("-", '1'));
    assert!(!v.accepts_char("12", 'x'));
    let p = FieldValidation::Int { min: 0, max: 24 };
    assert!(!p.accepts_char("", '-'));
    assert!(p.accepts_char("2", '4'));
    assert!(!p.accepts_char("24", '0'));
    let wide = FieldValidation::Int { min: -999, max: 9 };
    assert!(wide.accepts_char("--99", '9'));
    assert!(!wide.accepts_char("999", '9'));
}

#[test]
fn max_len_rule() {
    let v = FieldValidation::MaxLen(3);
    assert!(v.accepts_char("ab", 'c'));
    assert!(!v.accepts_char("abc", 'd'));
    assert!(!v.accepts_char("äöü", 'x'));
}

#[test]
fn editors_have_their_fields() {
    let d = open_persona_editor(strings(2));
    assert_eq!(d.title(), " Edit Persona ");
    assert_eq!(d.labels(), &["Name", "Persona"]);
    assert_eq!(d.validation_for(0), Some(FieldValidation::MaxLen(32)));
    assert_eq!(d.validation_for(1), None);
    assert_eq!(open_character_editor(strings(8)).labels().len(), 8);
    assert_eq!(open_template_editor(strings(4)).title(), " Edit Template Preset ");
    assert_eq!(open_instruct_editor(strings(12)).labels()[11], "Seq. As Stop Strings");
    assert_eq!(open_reasoning_editor(strings(4)).labels()[3], "Separator");
    assert_eq!(open_system_prompt_editor(strings(2)).labels()[1], "Content");
    let e = open_entry_editor(strings(9));
    assert_eq!(e.validation_for(6), Some(FieldValidation::Int { min: -999, max: 999 }));
    assert_eq!(e.validation_for(7), Some(FieldValidation::Int { min: 0, max: 24 }));
}

#[test]
fn name_field_stops_at_the_limit() {
    let mut values = strings(2);
    values[0] = "x".repeat(31);
    let mut d = open_persona_editor(values);
    d.handle_key(k(KeyCode::Enter));
    d.handle_key(k(KeyCode::Char('a')));
    d.handle_key(k(KeyCode::Char('b')));
    assert!(d.reject_flash().is_some());
    d.handle_key(k(KeyCode::Enter));
    assert_eq!(d.values()[0].chars().count(), 32);
    assert_eq!(d.handle_key(k(KeyCode::Esc)), FieldDialogAction::Close);
}

#[test]
fn entry_depth_field_takes_two_digits() {
    let mut values = strings(9);
    values[7] = String::new();
    let mut d = open_entry_editor(values);
    for _ in 0..7 {
        d.handle_key(k(KeyCode::Down));
    }
    assert_eq!(d.selected(), 7);
    d.handle_key(k(KeyCode::Enter));
    d.handle_key(k(KeyCode::Char('1')));
    d.handle_key(k(KeyCode::Char('2')));
    d.handle_key(k(KeyCode::Char('3')));
    d.handle_key(k(KeyCode::Char('-')));
    assert_eq!(d.values()[7], "12");
}

#[test]
fn selective_shows_second_keys() {
    let mut values = strings(9);
    values[2] = "TRUE".into();
    let mut d = open_entry_editor_non_selective(values);
    sync_entry_hidden_fields(&mut d);
    d.handle_key(k(KeyCode::Down));
    d.handle_key(k(KeyCode::Down));
    d.handle_key(k(KeyCode::Down));
    assert_eq!(d.selected(), 3);
    let mut values = strings(9);
    values[2] = "false".into();
    let mut d = open_entry_editor(values);
    sync_entry_hidden_fields(&mut d);
    d.handle_key(k(KeyCode::Down));
    d.handle_key(k(KeyCode::Down));
    d.handle_key(k(KeyCode::Down));
    assert_eq!(d.selected(), 4);
}

#[test]
fn decimal_fields_accept_one_point_two_decimals_and_bounded_digits() {
    assert!(decimal_accepts_char(true, 1, "", '-'));
    assert!(!decimal_accepts_char(false, 1, "", '-'));
    assert!(!decimal_accepts_char(true, 1, "1", '-'));
    assert!(decimal_accepts_char(false, 1, "1", '.'));
    assert!(!decimal_accepts_char(false, 1, "1.5", '.'));
    assert!(decimal_accepts_char(false, 1, "", '2'));
    assert!(!decimal_accepts_char(false, 1, "2", '3'));
    assert!(decimal_accepts_char(false, 1, "1.", '5'));
    assert!(decimal_accepts_char(false, 1, "1.5", '5'));
    assert!(!decimal_accepts_char(false, 1, "1.55", '5'));
    assert!(decimal_accepts_char(true, 2, "-1", '0'));
    assert!(!decimal_accepts_char(false, 1, "", 'x'));
}
