use libllm_tui::prompt::{assemble_system_prompt, template_user_name, PersonaInfo};

fn persona(name: &str, text: &str) -> PersonaInfo {
    PersonaInfo { name: name.to_string(), persona: text.to_string() }
}

#[test]
fn session_prompt_wins_over_default() {
    assert_eq!(assemble_system_prompt(false, "Be terse.", "Default", None), Some("Be terse.".to_string()));
}

#[test]
fn default_used_when_session_prompt_empty() {
    assert_eq!(assemble_system_prompt(false, "", "Default", None), Some("Default".to_string()));
}

#[test]
fn none_when_nothing_to_say() {
    assert_eq!(assemble_system_prompt(false, "", "", None), None);
    let p = persona("Ann", "a sailor");
    // a persona counts only in a character chat
    assert_eq!(assemble_system_prompt(false, "", "", Some(&p)), None);
}

#[test]
fn persona_line_follows_base() {
    let p = persona("Ann", "a sailor");
    assert_eq!(
        assemble_system_prompt(true, "Play {{char}}.", "", Some(&p)),
        Some("Play {{char}}.\n\nThe user's name is Ann. a sailor".to_string())
    );
}

#[test]
fn persona_without_name_or_text() {
    let p = persona("", "");
    assert_eq!(
        assemble_system_prompt(true, "", "", Some(&p)),
        Some("The user's name is the user.".to_string())
    );
}

#[test]
fn template_user_names() {
    assert_eq!(template_user_name(None), "User");
    let p = persona("", "x");
    assert_eq!(template_user_name(Some(&p)), "User");
    let p = persona("Ann", "x");
    assert_eq!(template_user_name(Some(&p)), "Ann");
}
