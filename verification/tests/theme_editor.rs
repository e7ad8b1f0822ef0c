use libllm_tui::theme::{resolve_theme, Color, Theme};
use libllm_tui::keys::{KeyCode, KeyEvent, KeyModifiers};
use libllm_tui::theme_editor::{
    any_set, base_theme_selection, handle_base_theme_picker_key, overrides_from_sections,
    preview_theme_config, theme_color_by_label, theme_config_from_sections, BasePickerKey,
};

fn sections(user: &str, indicator: &str) -> Vec<Vec<String>> {
    let mut s = vec![
        vec!["light".to_owned(), String::new(), String::new(), String::new()],
        vec![String::new(); 5],
        vec![String::new(); 10],
        vec![String::new(); 8],
        vec![String::new(); 3],
    ];
    s[1][0] = user.to_owned();
    s[4][2] = indicator.to_owned();
    s
}

#[test]
fn theme_color_lookup_returns_expected() {
    let theme = Theme::dark();
    assert_eq!(theme_color_by_label(&theme, "user_message"), Color::Green);
    assert_eq!(theme_color_by_label(&theme, "unknown"), Color::Reset);
}

#[test]
fn overrides_follow_the_tab_layout() {
    let o = overrides_from_sections(&sections("red", "  "));
    assert_eq!(o.user_message.as_deref(), Some("red"));
    assert!(o.summary_indicator.is_none());
    assert!(any_set(&o));
    let none = overrides_from_sections(&sections("", ""));
    assert!(!any_set(&none));
}

#[test]
fn config_from_editor_values() {
    let c = theme_config_from_sections(&sections("", ""));
    assert_eq!(c.theme.as_deref(), Some("light"));
    assert!(c.theme_colors.is_none());
    let p = preview_theme_config(&sections("#00ff00", ""));
    let t = resolve_theme(&p);
    assert_eq!(t.user_message, Color::Rgb(0, 255, 0));
    assert_eq!(t.dialogue, Theme::light().dialogue);
}

#[test]
fn base_theme_picker_starts_on_current() {
    let names = vec!["dark".to_owned(), "light".to_owned()];
    assert_eq!(base_theme_selection(&names, "light"), 1);
    assert_eq!(base_theme_selection(&names, "solarized"), 0);
}

#[test]
fn base_theme_picker_keys() {
    let k = |c| KeyEvent::new(c, KeyModifiers::none());
    let names = vec!["dark".to_string(), "light".to_string()];
    let mut sel = 0;
    assert_eq!(handle_base_theme_picker_key(k(KeyCode::Up), &names, &mut sel), BasePickerKey::Continue);
    assert_eq!(sel, 0);
    handle_base_theme_picker_key(k(KeyCode::Down), &names, &mut sel);
    handle_base_theme_picker_key(k(KeyCode::Down), &names, &mut sel);
    assert_eq!(sel, 1);
    assert_eq!(handle_base_theme_picker_key(k(KeyCode::Enter), &names, &mut sel), BasePickerKey::Choose("light".into()));
    assert_eq!(handle_base_theme_picker_key(k(KeyCode::Esc), &names, &mut sel), BasePickerKey::Back);
    let mut s2 = 0;
    assert_eq!(handle_base_theme_picker_key(k(KeyCode::Enter), &vec![], &mut s2), BasePickerKey::Choose(String::new()));
}
