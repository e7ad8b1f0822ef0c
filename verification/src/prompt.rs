//! The system prompt a chat is sent with: the session's own prompt, or else the
//! built-in default for its kind of chat, followed, in a character chat with a
//! persona, by a line introducing the user.

use vstd::prelude::*;
use crate::text::char_count;

verus! {

/// The persona the user plays, as far as the prompt goes.
#[derive(Debug, Clone)]
pub struct PersonaInfo {
    pub name: String,
    pub persona: String,
}

/// The line that introduces the user's persona.
pub open spec fn persona_line(p: PersonaInfo) -> Seq<char> {
    let name = if p.name@.len() == 0 { "the user"@ } else { p.name@ };
    "The user's name is "@ + name + "."@ + if p.persona@.len() == 0 { Seq::empty() } else { " "@ + p.persona@ }
}

/// The prompt before template variables are filled in: `None` when there is neither
/// a base prompt nor a persona to introduce; otherwise the base prompt (if any) and
/// the persona line (if any), separated by a blank line.
pub open spec fn assembled_prompt(is_character: bool, session_prompt: Seq<char>, builtin_default: Seq<char>, persona: Option<PersonaInfo>) -> Option<Seq<char>> {
    let base = if session_prompt.len() == 0 { builtin_default } else { session_prompt };
    let has_persona = is_character && persona is Some;
    if base.len() == 0 && !has_persona {
        None
    } else if !has_persona {
        Some(base)
    } else if base.len() == 0 {
        Some(persona_line(persona->0))
    } else {
        Some(base + "\n\n"@ + persona_line(persona->0))
    }
}

/// Assembles the system prompt. `builtin_default` is the stored built-in prompt for
/// the chat's kind (roleplay for a character chat, assistant otherwise; empty when it
/// could not be loaded); `persona` the session's persona, when one is set and loads.
/// In a character chat the caller then fills in the template variables, with the
/// character's name and `template_user_name(persona)`.
pub fn assemble_system_prompt(is_character: bool, session_prompt: &str, builtin_default: &str, persona: Option<&PersonaInfo>) -> (r: Option<String>)
    ensures
        match (r, assembled_prompt(is_character, session_prompt@, builtin_default@, match persona { Some(p) => Some(*p), None => None })) {
            (None, None) => true,
            (Some(s), Some(t)) => s@ == t,
            _ => false,
        },
{
    let base: &str = if char_count(session_prompt) == 0 { builtin_default } else { session_prompt };
    let base_empty = char_count(base) == 0;
    let has_persona = is_character && persona.is_some();
    if base_empty && !has_persona {
        return None;
    }
    if !has_persona {
        return Some(String::from_str(base));
    }
    let p = persona.unwrap();
    let mut line = String::from_str("The user's name is ");
    if char_count(p.name.as_str()) == 0 {
        line.append("the user");
    } else {
        line.append(p.name.as_str());
    }
    line.append(".");
    if char_count(p.persona.as_str()) > 0 {
        line.append(" ");
        line.append(p.persona.as_str());
    }
    proof {
        assert(line@ =~= persona_line(*p));
    }
    if base_empty {
        Some(line)
    } else {
        let mut out = String::from_str(base);
        out.append("\n\n");
        out.append(line.as_str());
        Some(out)
    }
}

/// The user's name for the template variables: the persona's name, or `User`.
pub fn template_user_name(persona: Option<&PersonaInfo>) -> (r: &str)
    ensures
        r@ == (match persona {
            Some(p) => if p.name@.len() == 0 { "User"@ } else { p.name@ },
            None => "User"@,
        }),
{
    match persona {
        Some(p) => if char_count(p.name.as_str()) == 0 { "User" } else { p.name.as_str() },
        None => "User",
    }
}

} // verus!
