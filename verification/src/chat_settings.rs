//! The group-chat settings dialog: scenario, turn-taking mode and the talkativeness of
//! each member, with fields the command line has locked.

use vstd::prelude::*;
use crate::keys::{KeyCode, KeyEvent};
use crate::text::{chars_of, string_of, sub_chars, trim, trim_chars, push_str, string_views};

verus! {

/// How the next speaker of a group chat is chosen.
#[derive(Debug, Clone, Copy, PartialEq, Eq, Structural)]
pub enum ChatMode {
    ActionValue,
    RoundRobin,
    WeightedRandom,
    Directed,
}

/// The mode after `m` when cycling forward (`forward`) or backward.
pub open spec fn mode_step(m: ChatMode, forward: bool) -> ChatMode {
    match (m, forward) {
        (ChatMode::ActionValue, true) => ChatMode::RoundRobin,
        (ChatMode::RoundRobin, true) => ChatMode::WeightedRandom,
        (ChatMode::WeightedRandom, true) => ChatMode::Directed,
        (ChatMode::Directed, true) => ChatMode::ActionValue,
        (ChatMode::Directed, false) => ChatMode::WeightedRandom,
        (ChatMode::WeightedRandom, false) => ChatMode::RoundRobin,
        (ChatMode::RoundRobin, false) => ChatMode::ActionValue,
        (ChatMode::ActionValue, false) => ChatMode::Directed,
    }
}

/// A member of a group chat: its character slug and its talkativeness, as a notch of
/// the slider.
#[derive(Debug, Clone)]
pub struct GroupMember {
    pub slug: String,
    pub notch: u8,
}

/// The group-chat settings the dialog edits.
#[derive(Debug, Clone)]
pub struct GroupChatSettings {
    pub chat_mode: ChatMode,
    pub members: Vec<GroupMember>,
}

/// A row of the dialog.
#[derive(Debug, Clone, Copy, PartialEq, Eq, Structural)]
pub enum Row {
    Scenario,
    Mode,
    Talkativeness { index: usize },
}

/// What a key press in the dialog asks for.
#[derive(Debug, Clone, Copy, PartialEq, Eq, Structural)]
pub enum ChatSettingsAction {
    Continue,
    Close,
    EditScenario,
}

/// The chat-settings dialog: its rows and the selected one.
#[derive(Debug, Clone)]
pub struct ChatSettingsDialog {
    pub selected: usize,
    pub rows: Vec<Row>,
}

/// The rows for a chat with `n` characters: the scenario, and for a group chat (two or
/// more characters) the mode and one talkativeness slider per character.
pub open spec fn rows_for(n: nat) -> Seq<Row> {
    if n >= 2 {
        seq![Row::Scenario, Row::Mode] + Seq::new(n, |i: int| Row::Talkativeness { index: i as usize })
    } else {
        seq![Row::Scenario]
    }
}

impl ChatSettingsDialog {
    /// The selection lies on a row, and each slider row names a member.
    pub open spec fn well_formed(self, members: nat) -> bool {
        &&& self.rows@.len() >= 1
        &&& self.selected < self.rows@.len()
        &&& forall|i: int|
            0 <= i < self.rows@.len() ==> (#[trigger] self.rows@[i] matches Row::Talkativeness {
                index,
            } ==> index < members)
    }

    /// The dialog for a chat with `character_count` characters, first row selected.
    pub fn for_session(character_count: usize) -> (d: Self)
        ensures
            d.selected == 0,
            d.rows@ == rows_for(character_count as nat),
            d.well_formed(character_count as nat),
    {
        let mut rows: Vec<Row> = vec![Row::Scenario];
        if character_count >= 2 {
            rows.push(Row::Mode);
            let mut i: usize = 0;
            while i < character_count
                invariant
                    i <= character_count,
                    character_count >= 2,
                    rows@ == seq![Row::Scenario, Row::Mode] + Seq::new(
                        i as nat,
                        |k: int| Row::Talkativeness { index: k as usize },
                    ),
                decreases character_count - i,
            {
                rows.push(Row::Talkativeness { index: i });
                assert(rows@ =~= seq![Row::Scenario, Row::Mode] + Seq::new(
                    (i + 1) as nat,
                    |k: int| Row::Talkativeness { index: k as usize },
                ));
                i = i + 1;
            }
        } else {
            assert(rows@ =~= seq![Row::Scenario]);
        }
        ChatSettingsDialog { selected: 0, rows }
    }
}

/// The warning shown when the scenario is locked.
pub open spec fn scenario_locked_text() -> Seq<char> {
    "scenario is locked by --scenario CLI flag"@
}

/// The warning shown when the chat mode is locked.
pub open spec fn mode_locked_text() -> Seq<char> {
    "chat mode is locked by --chat-mode CLI flag"@
}

/// The warning shown when a member's talkativeness is locked.
pub open spec fn talkativeness_locked_text(slug: Seq<char>) -> Seq<char> {
    "talkativeness for "@ + slug + " is locked by --talkativeness CLI flag"@
}

/// `notch` moved one step (up when `forward`) and kept within `0..=max`.
pub open spec fn notch_step(notch: u8, forward: bool, max: u8) -> u8 {
    let moved: int = if forward {
        notch + 1
    } else {
        notch - 1
    };
    if moved < 0 {
        0
    } else if moved > max {
        max
    } else {
        moved as u8
    }
}

/// The members with the notch of member `i` replaced.
pub open spec fn members_with_notch(m: Seq<GroupMember>, new_m: Seq<GroupMember>, i: int, notch: u8) -> bool {
    &&& new_m.len() == m.len()
    &&& forall|j: int| 0 <= j < m.len() && j != i ==> #[trigger] new_m[j] == m[j]
    &&& new_m[i].slug == m[i].slug
    &&& new_m[i].notch == notch
}

/// Left (`forward == false`) or Right on `row`: cycles the mode, or moves a
/// member's slider (which only counts in the modes that use talkativeness); a locked
/// setting is left alone and a warning says why.
pub open spec fn adjusted(
    s: GroupChatSettings,
    new_s: GroupChatSettings,
    warn: Option<String>,
    new_warn: Option<String>,
    row: Row,
    forward: bool,
    mode_locked: bool,
    locked: Seq<Seq<char>>,
    max: u8,
) -> bool {
    let unchanged = new_s.chat_mode == s.chat_mode && new_s.members@ == s.members@;
    match row {
        Row::Scenario => unchanged && new_warn == warn,
        Row::Mode => if mode_locked {
            unchanged && (new_warn matches Some(w) && w@ == mode_locked_text())
        } else {
            new_s.chat_mode == mode_step(s.chat_mode, forward) && new_s.members@ == s.members@
                && new_warn == warn
        },
        Row::Talkativeness { index } => {
            let slug = s.members@[index as int].slug@;
            if s.chat_mode == ChatMode::RoundRobin || s.chat_mode == ChatMode::Directed {
                unchanged && new_warn == warn
            } else if locked.contains(slug) {
                unchanged && (new_warn matches Some(w) && w@ == talkativeness_locked_text(slug))
            } else {
                new_s.chat_mode == s.chat_mode && new_warn == warn && members_with_notch(
                    s.members@,
                    new_s.members@,
                    index as int,
                    notch_step(s.members@[index as int].notch, forward, max),
                )
            }
        },
    }
}

fn contains_string(v: &[String], s: &String) -> (b: bool)
    ensures
        b == string_views(v@).contains(s@),
{
    let mut i: usize = 0;
    while i < v.len()
        invariant
            i <= v.len(),
            forall|k: int| 0 <= k < i ==> v@[k]@ != s@,
        decreases v.len() - i,
    {
        if v[i] == *s {
            assert(string_views(v@)[i as int] == s@);
            return true;
        }
        i = i + 1;
    }
    assert forall|k: int| 0 <= k < string_views(v@).len() implies string_views(v@)[k] != s@ by {
        assert(string_views(v@)[k] == v@[k]@);
    }
    false
}

impl ChatSettingsDialog {
    fn adjust(
        &self,
        settings: &mut GroupChatSettings,
        forward: bool,
        mode_locked: bool,
        talkativeness_locked: &[String],
        max_notch: u8,
        set_locked_warning: &mut Option<String>,
    )
        requires
            self.well_formed(old(settings).members@.len()),
        ensures
            adjusted(
                *old(settings),
                *final(settings),
                *old(set_locked_warning),
                *final(set_locked_warning),
                self.rows@[self.selected as int],
                forward,
                mode_locked,
                string_views(talkativeness_locked@),
                max_notch,
            ),
    {
        let row = self.rows[self.selected];
        match row {
            Row::Scenario => {},
            Row::Mode => {
                if mode_locked {
                    *set_locked_warning = Some(
                        String::from_str("chat mode is locked by --chat-mode CLI flag"),
                    );
                    return ;
                }
                settings.chat_mode = match (settings.chat_mode, forward) {
                    (ChatMode::ActionValue, true) => ChatMode::RoundRobin,
                    (ChatMode::RoundRobin, true) => ChatMode::WeightedRandom,
                    (ChatMode::WeightedRandom, true) => ChatMode::Directed,
                    (ChatMode::Directed, true) => ChatMode::ActionValue,
                    (ChatMode::Directed, false) => ChatMode::WeightedRandom,
                    (ChatMode::WeightedRandom, false) => ChatMode::RoundRobin,
                    (ChatMode::RoundRobin, false) => ChatMode::ActionValue,
                    (ChatMode::ActionValue, false) => ChatMode::Directed,
                };
            },
            Row::Talkativeness { index } => {
                assert(self.rows@[self.selected as int] matches Row::Talkativeness { index: ix }
                    && ix < settings.members@.len());
                if settings.chat_mode == ChatMode::RoundRobin || settings.chat_mode
                    == ChatMode::Directed {
                    return ;
                }
                let slug = settings.members[index].slug.clone();
                if contains_string(talkativeness_locked, &slug) {
                    let mut w: Vec<char> = Vec::new();
                    push_str(&mut w, "talkativeness for ");
                    push_str(&mut w, slug.as_str());
                    push_str(&mut w, " is locked by --talkativeness CLI flag");
                    assert(Seq::<char>::empty() + "talkativeness for "@ =~= "talkativeness for "@);
                    *set_locked_warning = Some(string_of(w.as_slice()));
                    return ;
                }
                let current = settings.members[index].notch;
                let new_notch: u8 = if forward {
                    if current >= max_notch {
                        max_notch
                    } else {
                        current + 1
                    }
                } else {
                    if current == 0 {
                        0
                    } else if current - 1 > max_notch {
                        max_notch
                    } else {
                        current - 1
                    }
                };
                settings.members.set(index, GroupMember { slug, notch: new_notch });
            },
        }
    }

}

/// The selection after Up: one row higher, stopping at the first.
pub open spec fn up_selection(sel: usize) -> usize {
    if sel == 0 {
        0
    } else {
        (sel - 1) as usize
    }
}

/// The selection after Down: one row lower, stopping at the last of `len` rows.
pub open spec fn down_selection(sel: usize, len: nat) -> usize {
    if sel + 1 < len {
        (sel + 1) as usize
    } else {
        (len - 1) as usize
    }
}

/// The settings are left as they were.
pub open spec fn same_settings(a: GroupChatSettings, b: GroupChatSettings) -> bool {
    a.chat_mode == b.chat_mode && a.members@ == b.members@
}

/// What a key asks for, with `row` selected: Esc closes, Enter on an unlocked
/// scenario asks to edit it, everything else continues.
pub open spec fn key_action(key: KeyEvent, row: Row, scenario_locked: bool) -> ChatSettingsAction {
    match key.code {
        KeyCode::Esc => ChatSettingsAction::Close,
        KeyCode::Enter => if row == Row::Scenario && !scenario_locked {
            ChatSettingsAction::EditScenario
        } else {
            ChatSettingsAction::Continue
        },
        _ => ChatSettingsAction::Continue,
    }
}

impl ChatSettingsDialog {
    /// Up and Down move the selection (stopping at either end), Left and Right adjust
    /// the selected row, Enter on the scenario asks to edit it (unless it is locked),
    /// and Esc closes the dialog.
    pub fn handle_key(
        &mut self,
        key: KeyEvent,
        settings: &mut GroupChatSettings,
        scenario_locked: bool,
        mode_locked: bool,
        talkativeness_locked: &[String],
        max_notch: u8,
        set_locked_warning: &mut Option<String>,
    ) -> (r: ChatSettingsAction)
        requires
            old(self).well_formed(old(settings).members@.len()),
        ensures
            final(self).rows == old(self).rows,
            final(self).well_formed(old(settings).members@.len()),
            final(settings).members@.len() == old(settings).members@.len(),
            key.code != KeyCode::Left && key.code != KeyCode::Right ==> same_settings(
                *old(settings),
                *final(settings),
            ),
            key.code != KeyCode::Up && key.code != KeyCode::Down ==> final(self).selected == old(self).selected,
            key.code == KeyCode::Up ==> final(self).selected == up_selection(old(self).selected),
            key.code == KeyCode::Down ==> final(self).selected == down_selection(old(self).selected, old(self).rows@.len()),
            (key.code == KeyCode::Left || key.code == KeyCode::Right) ==> adjusted(
                *old(settings),
                *final(settings),
                *old(set_locked_warning),
                *final(set_locked_warning),
                old(self).rows@[old(self).selected as int],
                key.code == KeyCode::Right,
                mode_locked,
                string_views(talkativeness_locked@),
                max_notch,
            ),
            r == key_action(key, old(self).rows@[old(self).selected as int], scenario_locked),
            (key.code == KeyCode::Enter && old(self).rows@[old(self).selected as int] == Row::Scenario
                && scenario_locked) ==> (*final(set_locked_warning) matches Some(w) && w@ == scenario_locked_text()),
            !(key.code == KeyCode::Enter && old(self).rows@[old(self).selected as int] == Row::Scenario
                && scenario_locked) && key.code != KeyCode::Left && key.code != KeyCode::Right
                ==> *final(set_locked_warning) == *old(set_locked_warning),
    {
        match key.code {
            KeyCode::Up => {
                self.selected = if self.selected == 0 {
                    0
                } else {
                    self.selected - 1
                };
                ChatSettingsAction::Continue
            },
            KeyCode::Down => {
                let last = self.rows.len() - 1;
                self.selected = if self.selected + 1 < self.rows.len() {
                    self.selected + 1
                } else {
                    last
                };
                ChatSettingsAction::Continue
            },
            KeyCode::Left => {
                self.adjust(
                    settings,
                    false,
                    mode_locked,
                    talkativeness_locked,
                    max_notch,
                    set_locked_warning,
                );
                ChatSettingsAction::Continue
            },
            KeyCode::Right => {
                self.adjust(
                    settings,
                    true,
                    mode_locked,
                    talkativeness_locked,
                    max_notch,
                    set_locked_warning,
                );
                ChatSettingsAction::Continue
            },
            KeyCode::Enter => {
                if self.rows[self.selected] == Row::Scenario {
                    if scenario_locked {
                        *set_locked_warning = Some(
                            String::from_str("scenario is locked by --scenario CLI flag"),
                        );
                        ChatSettingsAction::Continue
                    } else {
                        ChatSettingsAction::EditScenario
                    }
                } else {
                    ChatSettingsAction::Continue
                }
            },
            KeyCode::Esc => ChatSettingsAction::Close,
            _ => ChatSettingsAction::Continue,
        }
    }
}

/// Longest scenario preview, in characters, before it is cut with an ellipsis.
pub const SCENARIO_PREVIEW_CHARS: usize = 80;

/// What the scenario row shows: a hint when there is no scenario or it is blank, the
/// trimmed scenario when it has at most 80 characters, else its first 80 characters
/// and an ellipsis.
pub open spec fn scenario_preview_spec(s: Option<Seq<char>>) -> Seq<char> {
    match s {
        Some(text) => {
            let t = trim(text);
            if t.len() == 0 {
                "(empty \u{2014} press Enter)"@
            } else if t.len() <= SCENARIO_PREVIEW_CHARS {
                t
            } else {
                t.take(SCENARIO_PREVIEW_CHARS as int).push('\u{2026}')
            }
        },
        None => "(empty \u{2014} press Enter)"@,
    }
}

/// The scenario row's text (see `scenario_preview_spec`).
pub fn scenario_preview(scenario: Option<&str>) -> (r: String)
    ensures
        r@ == scenario_preview_spec(
            match scenario {
                Some(s) => Some(s@),
                None => None,
            },
        ),
{
    match scenario {
        Some(s) => {
            let v = chars_of(s);
            let t = trim_chars(v.as_slice());
            if t.len() == 0 {
                String::from_str("(empty \u{2014} press Enter)")
            } else if t.len() <= SCENARIO_PREVIEW_CHARS {
                string_of(t.as_slice())
            } else {
                let mut cut = sub_chars(t.as_slice(), 0, SCENARIO_PREVIEW_CHARS);
                cut.push('\u{2026}');
                assert(t@.subrange(0, SCENARIO_PREVIEW_CHARS as int) =~= t@.take(
                    SCENARIO_PREVIEW_CHARS as int,
                ));
                string_of(cut.as_slice())
            }
        },
        None => String::from_str("(empty \u{2014} press Enter)"),
    }
}

} // verus!
