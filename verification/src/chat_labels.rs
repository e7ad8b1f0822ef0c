//! What the chat pane writes above and inside each message: the speaker's label, the
//! branch indicator of a message with siblings, and the line standing for a summary.

use vstd::prelude::*;
use crate::text::{push_str, push_decimal, decimal, string_of};

verus! {

/// Who wrote a message.
#[derive(Debug, Clone, Copy, PartialEq, Eq, Structural)]
pub enum ChatRole {
    User,
    Assistant,
    System,
    Summary,
}

/// The label of a message by `role`. Names are substituted only while a character is
/// loaded: the user is then the active persona (when one is set), the assistant the
/// character (when it has a name); otherwise "You" and "Assistant".
pub open spec fn role_label_spec(
    role: ChatRole,
    has_character: bool,
    persona_name: Option<Seq<char>>,
    character_name: Seq<char>,
) -> Seq<char> {
    match role {
        ChatRole::User => if has_character && persona_name is Some {
            persona_name->Some_0
        } else {
            "You"@
        },
        ChatRole::Assistant => if has_character && character_name.len() > 0 {
            character_name
        } else {
            "Assistant"@
        },
        ChatRole::System => "System"@,
        ChatRole::Summary => "Summary"@,
    }
}

/// The label of a message by `role` (see `role_label_spec`).
pub fn role_label(role: ChatRole, has_character: bool, persona_name: Option<&str>, character_name: &str) -> (r: String)
    ensures
        r@ == role_label_spec(
            role,
            has_character,
            match persona_name { Some(p) => Some(p@), None => None },
            character_name@,
        ),
{
    match role {
        ChatRole::User => match persona_name {
            Some(p) => if has_character { String::from_str(p) } else { String::from_str("You") },
            None => String::from_str("You"),
        },
        ChatRole::Assistant => {
            if has_character && crate::text::char_count(character_name) > 0 {
                String::from_str(character_name)
            } else {
                String::from_str("Assistant")
            }
        },
        ChatRole::System => String::from_str("System"),
        ChatRole::Summary => String::from_str("Summary"),
    }
}

/// The branch indicator after a message's label: ` [i/n]` for the `i`-th (counting
/// from 1) of `n` siblings, nothing for a message without siblings.
pub open spec fn branch_indicator_spec(index: nat, total: nat) -> Seq<char> {
    if total > 1 {
        " ["@ + decimal(index + 1) + seq!['/'] + decimal(total) + "]"@
    } else {
        Seq::empty()
    }
}

/// The branch indicator of the message at `index` (from 0) among `total` siblings.
pub fn branch_indicator(index: u64, total: u64) -> (r: String)
    requires
        index < u64::MAX,
    ensures
        r@ == branch_indicator_spec(index as nat, total as nat),
{
    let mut v: Vec<char> = Vec::new();
    if total > 1 {
        push_str(&mut v, " [");
        push_decimal(&mut v, index + 1);
        v.push('/');
        push_decimal(&mut v, total);
        push_str(&mut v, "]");
    }
    string_of(v.as_slice())
}

/// The line shown in place of a summary that stands for `count` earlier messages.
pub open spec fn summary_line_spec(count: nat) -> Seq<char> {
    "--- Summary of "@ + decimal(count) + " earlier messages ---"@
}

/// The line shown in place of a summary of `count` earlier messages.
pub fn summary_line(count: u64) -> (r: String)
    ensures
        r@ == summary_line_spec(count as nat),
{
    let mut v: Vec<char> = Vec::new();
    push_str(&mut v, "--- Summary of ");
    push_decimal(&mut v, count);
    push_str(&mut v, " earlier messages ---");
    string_of(v.as_slice())
}

} // verus!
