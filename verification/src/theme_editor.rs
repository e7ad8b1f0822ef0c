//! The `/theme` editor: which field of which tab edits which color, turning the
//! edited values into color overrides, and reading a theme's color by field name.

use vstd::prelude::*;
use crate::business::non_empty;
use crate::text::{trim, chars_of, chars_eq_str};
use crate::theme::{Color, Theme, ThemeColorOverrides, ThemeConfig};
use crate::keys::{KeyCode, KeyEvent};

verus! {

/// `o` is what `non_empty` gives for `s`: nothing for blank text, else the text.
pub open spec fn blank_or_text(o: Option<String>, s: Seq<char>) -> bool {
    &&& (o is None <==> trim(s).len() == 0)
    &&& (o matches Some(t) ==> t@ == s)
}

/// The editor's sections are long enough for every color field: the Theme tab, then
/// Messages (5 colors), Borders & Status (10), UI (8) and Indicators (3).
pub open spec fn sections_shaped(s: Seq<Vec<String>>) -> bool {
    &&& s.len() >= 5
    &&& s[0]@.len() >= 1
    &&& s[1]@.len() >= 5
    &&& s[2]@.len() >= 10
    &&& s[3]@.len() >= 8
    &&& s[4]@.len() >= 3
}

/// The overrides that the values of the color tabs give: each blank field leaves its
/// color to the base theme.
pub open spec fn overrides_match(o: ThemeColorOverrides, s: Seq<Vec<String>>) -> bool {
    &&& blank_or_text(o.user_message, s[1]@[0]@)
    &&& blank_or_text(o.assistant_message_fg, s[1]@[1]@)
    &&& blank_or_text(o.assistant_message_bg, s[1]@[2]@)
    &&& blank_or_text(o.system_message, s[1]@[3]@)
    &&& blank_or_text(o.dialogue, s[1]@[4]@)
    &&& blank_or_text(o.border_focused, s[2]@[0]@)
    &&& blank_or_text(o.border_unfocused, s[2]@[1]@)
    &&& blank_or_text(o.status_bar_fg, s[2]@[2]@)
    &&& blank_or_text(o.status_bar_bg, s[2]@[3]@)
    &&& blank_or_text(o.status_error_fg, s[2]@[4]@)
    &&& blank_or_text(o.status_error_bg, s[2]@[5]@)
    &&& blank_or_text(o.status_info_fg, s[2]@[6]@)
    &&& blank_or_text(o.status_info_bg, s[2]@[7]@)
    &&& blank_or_text(o.status_warning_fg, s[2]@[8]@)
    &&& blank_or_text(o.status_warning_bg, s[2]@[9]@)
    &&& blank_or_text(o.nav_cursor_fg, s[3]@[0]@)
    &&& blank_or_text(o.nav_cursor_bg, s[3]@[1]@)
    &&& blank_or_text(o.hover_bg, s[3]@[2]@)
    &&& blank_or_text(o.sidebar_highlight_fg, s[3]@[3]@)
    &&& blank_or_text(o.sidebar_highlight_bg, s[3]@[4]@)
    &&& blank_or_text(o.dimmed, s[3]@[5]@)
    &&& blank_or_text(o.command_picker_fg, s[3]@[6]@)
    &&& blank_or_text(o.command_picker_bg, s[3]@[7]@)
    &&& blank_or_text(o.streaming_indicator, s[4]@[0]@)
    &&& blank_or_text(o.api_unavailable, s[4]@[1]@)
    &&& blank_or_text(o.summary_indicator, s[4]@[2]@)
}

/// Builds the color overrides from the editor's values (see `overrides_match`).
pub fn overrides_from_sections(sections: &Vec<Vec<String>>) -> (o: ThemeColorOverrides)
    requires
        sections_shaped(sections@),
    ensures
        overrides_match(o, sections@),
{
    ThemeColorOverrides {
        user_message: non_empty(sections[1][0].as_str()),
        assistant_message_fg: non_empty(sections[1][1].as_str()),
        assistant_message_bg: non_empty(sections[1][2].as_str()),
        system_message: non_empty(sections[1][3].as_str()),
        dialogue: non_empty(sections[1][4].as_str()),
        border_focused: non_empty(sections[2][0].as_str()),
        border_unfocused: non_empty(sections[2][1].as_str()),
        status_bar_fg: non_empty(sections[2][2].as_str()),
        status_bar_bg: non_empty(sections[2][3].as_str()),
        status_error_fg: non_empty(sections[2][4].as_str()),
        status_error_bg: non_empty(sections[2][5].as_str()),
        status_info_fg: non_empty(sections[2][6].as_str()),
        status_info_bg: non_empty(sections[2][7].as_str()),
        status_warning_fg: non_empty(sections[2][8].as_str()),
        status_warning_bg: non_empty(sections[2][9].as_str()),
        nav_cursor_fg: non_empty(sections[3][0].as_str()),
        nav_cursor_bg: non_empty(sections[3][1].as_str()),
        hover_bg: non_empty(sections[3][2].as_str()),
        sidebar_highlight_fg: non_empty(sections[3][3].as_str()),
        sidebar_highlight_bg: non_empty(sections[3][4].as_str()),
        dimmed: non_empty(sections[3][5].as_str()),
        command_picker_fg: non_empty(sections[3][6].as_str()),
        command_picker_bg: non_empty(sections[3][7].as_str()),
        streaming_indicator: non_empty(sections[4][0].as_str()),
        api_unavailable: non_empty(sections[4][1].as_str()),
        summary_indicator: non_empty(sections[4][2].as_str()),
    }
}

/// Whether any override is set.
pub open spec fn any_set_spec(o: ThemeColorOverrides) -> bool {
    o.user_message is Some || o.assistant_message_fg is Some || o.assistant_message_bg is Some || o.system_message is Some || o.border_focused is Some || o.border_unfocused is Some || o.status_bar_fg is Some || o.status_bar_bg is Some || o.status_error_fg is Some || o.status_error_bg is Some || o.status_info_fg is Some || o.status_info_bg is Some || o.status_warning_fg is Some || o.status_warning_bg is Some || o.dialogue is Some || o.nav_cursor_fg is Some || o.nav_cursor_bg is Some || o.hover_bg is Some || o.dimmed is Some || o.sidebar_highlight_fg is Some || o.sidebar_highlight_bg is Some || o.command_picker_fg is Some || o.command_picker_bg is Some || o.streaming_indicator is Some || o.api_unavailable is Some || o.summary_indicator is Some
}

/// Whether any override is set.
pub fn any_set(o: &ThemeColorOverrides) -> (b: bool)
    ensures
        b == any_set_spec(*o),
{
    o.user_message.is_some() || o.assistant_message_fg.is_some() || o.assistant_message_bg.is_some() || o.system_message.is_some() || o.border_focused.is_some() || o.border_unfocused.is_some() || o.status_bar_fg.is_some() || o.status_bar_bg.is_some() || o.status_error_fg.is_some() || o.status_error_bg.is_some() || o.status_info_fg.is_some() || o.status_info_bg.is_some() || o.status_warning_fg.is_some() || o.status_warning_bg.is_some() || o.dialogue.is_some() || o.nav_cursor_fg.is_some() || o.nav_cursor_bg.is_some() || o.hover_bg.is_some() || o.dimmed.is_some() || o.sidebar_highlight_fg.is_some() || o.sidebar_highlight_bg.is_some() || o.command_picker_fg.is_some() || o.command_picker_bg.is_some() || o.streaming_indicator.is_some() || o.api_unavailable.is_some() || o.summary_indicator.is_some()
}

/// The configuration the editor's values stand for: the base theme named on the
/// Theme tab, and the overrides when any is set.
pub fn theme_config_from_sections(sections: &Vec<Vec<String>>) -> (c: ThemeConfig)
    requires
        sections_shaped(sections@),
    ensures
        c.theme matches Some(n) && n@ == sections@[0]@[0]@,
        match c.theme_colors {
            Some(o) => overrides_match(o, sections@) && any_set_spec(o),
            None => exists|o: ThemeColorOverrides| overrides_match(o, sections@) && !any_set_spec(o),
        },
{
    let base = sections[0][0].clone();
    let overrides = overrides_from_sections(sections);
    let set = any_set(&overrides);
    ThemeConfig { theme: Some(base), theme_colors: if set { Some(overrides) } else { None } }
}

/// The configuration previewed while the editor is open: the base theme named on the
/// Theme tab with all the overrides.
pub fn preview_theme_config(sections: &Vec<Vec<String>>) -> (c: ThemeConfig)
    requires
        sections_shaped(sections@),
    ensures
        c.theme matches Some(n) && n@ == sections@[0]@[0]@,
        c.theme_colors matches Some(o) && overrides_match(o, sections@),
{
    let base = sections[0][0].clone();
    ThemeConfig { theme: Some(base), theme_colors: Some(overrides_from_sections(sections)) }
}

/// The color of `theme` that the field named `label` edits, or `Reset` for an
/// unknown name.
pub open spec fn color_by_label(theme: Theme, label: Seq<char>) -> Color {
    if label == "user_message"@ {
        theme.user_message
    } else if label == "assistant_message_fg"@ {
        theme.assistant_message_fg
    } else if label == "assistant_message_bg"@ {
        theme.assistant_message_bg
    } else if label == "system_message"@ {
        theme.system_message
    } else if label == "border_focused"@ {
        theme.border_focused
    } else if label == "border_unfocused"@ {
        theme.border_unfocused
    } else if label == "status_bar_fg"@ {
        theme.status_bar_fg
    } else if label == "status_bar_bg"@ {
        theme.status_bar_bg
    } else if label == "status_error_fg"@ {
        theme.status_error_fg
    } else if label == "status_error_bg"@ {
        theme.status_error_bg
    } else if label == "status_info_fg"@ {
        theme.status_info_fg
    } else if label == "status_info_bg"@ {
        theme.status_info_bg
    } else if label == "status_warning_fg"@ {
        theme.status_warning_fg
    } else if label == "status_warning_bg"@ {
        theme.status_warning_bg
    } else if label == "dialogue"@ {
        theme.dialogue
    } else if label == "nav_cursor_fg"@ {
        theme.nav_cursor_fg
    } else if label == "nav_cursor_bg"@ {
        theme.nav_cursor_bg
    } else if label == "hover_bg"@ {
        theme.hover_bg
    } else if label == "dimmed"@ {
        theme.dimmed
    } else if label == "sidebar_highlight_fg"@ {
        theme.sidebar_highlight_fg
    } else if label == "sidebar_highlight_bg"@ {
        theme.sidebar_highlight_bg
    } else if label == "command_picker_fg"@ {
        theme.command_picker_fg
    } else if label == "command_picker_bg"@ {
        theme.command_picker_bg
    } else if label == "streaming_indicator"@ {
        theme.streaming_indicator
    } else if label == "api_unavailable"@ {
        theme.api_unavailable
    } else if label == "summary_indicator"@ {
        theme.summary_indicator
    } else {
        Color::Reset
    }
}

/// The color of `theme` that the field named `label` edits (see `color_by_label`).
pub fn theme_color_by_label(theme: &Theme, label: &str) -> (c: Color)
    ensures
        c == color_by_label(*theme, label@),
{
    let v = chars_of(label);
    let v = v.as_slice();
    if chars_eq_str(v, "user_message") {
        theme.user_message
    } else if chars_eq_str(v, "assistant_message_fg") {
        theme.assistant_message_fg
    } else if chars_eq_str(v, "assistant_message_bg") {
        theme.assistant_message_bg
    } else if chars_eq_str(v, "system_message") {
        theme.system_message
    } else if chars_eq_str(v, "border_focused") {
        theme.border_focused
    } else if chars_eq_str(v, "border_unfocused") {
        theme.border_unfocused
    } else if chars_eq_str(v, "status_bar_fg") {
        theme.status_bar_fg
    } else if chars_eq_str(v, "status_bar_bg") {
        theme.status_bar_bg
    } else if chars_eq_str(v, "status_error_fg") {
        theme.status_error_fg
    } else if chars_eq_str(v, "status_error_bg") {
        theme.status_error_bg
    } else if chars_eq_str(v, "status_info_fg") {
        theme.status_info_fg
    } else if chars_eq_str(v, "status_info_bg") {
        theme.status_info_bg
    } else if chars_eq_str(v, "status_warning_fg") {
        theme.status_warning_fg
    } else if chars_eq_str(v, "status_warning_bg") {
        theme.status_warning_bg
    } else if chars_eq_str(v, "dialogue") {
        theme.dialogue
    } else if chars_eq_str(v, "nav_cursor_fg") {
        theme.nav_cursor_fg
    } else if chars_eq_str(v, "nav_cursor_bg") {
        theme.nav_cursor_bg
    } else if chars_eq_str(v, "hover_bg") {
        theme.hover_bg
    } else if chars_eq_str(v, "dimmed") {
        theme.dimmed
    } else if chars_eq_str(v, "sidebar_highlight_fg") {
        theme.sidebar_highlight_fg
    } else if chars_eq_str(v, "sidebar_highlight_bg") {
        theme.sidebar_highlight_bg
    } else if chars_eq_str(v, "command_picker_fg") {
        theme.command_picker_fg
    } else if chars_eq_str(v, "command_picker_bg") {
        theme.command_picker_bg
    } else if chars_eq_str(v, "streaming_indicator") {
        theme.streaming_indicator
    } else if chars_eq_str(v, "api_unavailable") {
        theme.api_unavailable
    } else if chars_eq_str(v, "summary_indicator") {
        theme.summary_indicator
    } else {
        Color::Reset
    }
}

/// Where the base-theme picker opens: on `current` among `names`, else on the first.
pub fn base_theme_selection(names: &[String], current: &str) -> (i: usize)
    ensures
        i == 0 || (i < names@.len() && names@[i as int]@ == current@),
        (exists|j: int| 0 <= j < names@.len() && names@[j]@ == current@) ==> i < names@.len()
            && names@[i as int]@ == current@ && forall|j: int| 0 <= j < i ==> names@[j]@ != current@,
        !(exists|j: int| 0 <= j < names@.len() && names@[j]@ == current@) ==> i == 0,
{
    let c = chars_of(current);
    let mut i: usize = 0;
    while i < names.len()
        invariant
            i <= names.len(),
            c@ == current@,
            forall|j: int| 0 <= j < i ==> names@[j]@ != current@,
        decreases names.len() - i,
    {
        let n = chars_of(names[i].as_str());
        if crate::text::chars_eq(n.as_slice(), c.as_slice()) {
            return i;
        }
        i = i + 1;
    }
    0
}

/// What a key in the base-theme picker asks for.
#[derive(Debug, Clone, PartialEq, Eq)]
pub enum BasePickerKey {
    Continue,
    /// Put this name in the theme editor's base-theme field (empty when the list is
    /// empty), preview it and return to the editor.
    Choose(String),
    /// Return to the theme editor.
    Back,
}

/// Handles a key in the base-theme picker over `names`.
pub fn handle_base_theme_picker_key(key: KeyEvent, names: &Vec<String>, selected: &mut usize) -> (r: BasePickerKey)
    ensures
        match key.code {
            KeyCode::Up => r == BasePickerKey::Continue
                && *final(selected) == (if *old(selected) > 0 { *old(selected) - 1 } else { *old(selected) as int }),
            KeyCode::Down => r == BasePickerKey::Continue
                && *final(selected) == (if *old(selected) + 1 < names@.len() { *old(selected) + 1 } else { *old(selected) as int }),
            KeyCode::Enter => *final(selected) == *old(selected) && (r matches BasePickerKey::Choose(n)
                && n@ == (if *old(selected) < names@.len() { names@[*old(selected) as int]@ } else { Seq::<char>::empty() })),
            KeyCode::Esc => r == BasePickerKey::Back && *final(selected) == *old(selected),
            _ => r == BasePickerKey::Continue && *final(selected) == *old(selected),
        },
{
    match key.code {
        KeyCode::Up => {
            if *selected > 0 {
                *selected = *selected - 1;
            }
            BasePickerKey::Continue
        },
        KeyCode::Down => {
            if names.len() > 0 && *selected < names.len() - 1 {
                *selected = *selected + 1;
            }
            BasePickerKey::Continue
        },
        KeyCode::Enter => {
            let chosen = if *selected < names.len() { names[*selected].clone() } else { String::new() };
            BasePickerKey::Choose(chosen)
        },
        KeyCode::Esc => BasePickerKey::Back,
        _ => BasePickerKey::Continue,
    }
}

} // verus!
