//! Slash commands: which command a name is, and the decisions of the commands that
//! branch, change the passkey, switch themes and run macros.

use vstd::prelude::*;
use crate::text::{chars_of, string_of, sub_chars, trim, trim_chars, push_str, string_views, first_index, utf8_len, is_boundary};
use crate::status::{set_status, status_text_spec, StatusLevel, StatusMessage};
use crate::theme::{Theme, theme_named, theme_names};
use crate::macros::{expand_macro, expand_spec, text_result};

verus! {

/// The slash commands.
#[derive(Debug, Clone, Copy, PartialEq, Eq, Structural)]
pub enum SlashCommand {
    Quit,
    Clear,
    Retry,
    Continue,
    System,
    Config,
    Branch,
    Persona,
    Worldbook,
    Character,
    Passkey,
    Theme,
    Export,
    Macro,
    Report,
    Unknown,
}

pub open spec fn command_named(name: Seq<char>) -> SlashCommand {
    if name == "/quit"@ { SlashCommand::Quit }
    else if name == "/clear"@ { SlashCommand::Clear }
    else if name == "/retry"@ { SlashCommand::Retry }
    else if name == "/continue"@ { SlashCommand::Continue }
    else if name == "/system"@ { SlashCommand::System }
    else if name == "/config"@ { SlashCommand::Config }
    else if name == "/branch"@ { SlashCommand::Branch }
    else if name == "/persona"@ { SlashCommand::Persona }
    else if name == "/worldbook"@ { SlashCommand::Worldbook }
    else if name == "/character"@ { SlashCommand::Character }
    else if name == "/passkey"@ { SlashCommand::Passkey }
    else if name == "/theme"@ { SlashCommand::Theme }
    else if name == "/export"@ { SlashCommand::Export }
    else if name == "/macro"@ { SlashCommand::Macro }
    else if name == "/report"@ { SlashCommand::Report }
    else { SlashCommand::Unknown }
}

/// The name a user types for `c` (none for an unknown command).
pub open spec fn command_word(c: SlashCommand) -> Option<Seq<char>> {
    match c {
        SlashCommand::Quit => Some("/quit"@),
        SlashCommand::Clear => Some("/clear"@),
        SlashCommand::Retry => Some("/retry"@),
        SlashCommand::Continue => Some("/continue"@),
        SlashCommand::System => Some("/system"@),
        SlashCommand::Config => Some("/config"@),
        SlashCommand::Branch => Some("/branch"@),
        SlashCommand::Persona => Some("/persona"@),
        SlashCommand::Worldbook => Some("/worldbook"@),
        SlashCommand::Character => Some("/character"@),
        SlashCommand::Passkey => Some("/passkey"@),
        SlashCommand::Theme => Some("/theme"@),
        SlashCommand::Export => Some("/export"@),
        SlashCommand::Macro => Some("/macro"@),
        SlashCommand::Report => Some("/report"@),
        SlashCommand::Unknown => None,
    }
}

/// Every command is reached by its own name: typing the name of a command runs that
/// command and no other, so no two names share a command.
pub proof fn law_each_command_by_its_name(c: SlashCommand)
    ensures
        command_word(c) matches Some(w) ==> command_named(w) == c,
        c != SlashCommand::Unknown ==> command_word(c) is Some,
{
    match c {
        SlashCommand::Quit => {
            reveal_strlit("/quit");
        },
        SlashCommand::Clear => {
            reveal_strlit("/clear");
            reveal_strlit("/quit");
            assert("/clear"@.len() != "/quit"@.len());
        },
        SlashCommand::Retry => {
            reveal_strlit("/retry");
            reveal_strlit("/quit");
            assert("/retry"@.len() != "/quit"@.len());
            reveal_strlit("/clear");
            assert("/retry"@[1] != "/clear"@[1]);
        },
        SlashCommand::Continue => {
            reveal_strlit("/continue");
            reveal_strlit("/quit");
            assert("/continue"@.len() != "/quit"@.len());
            reveal_strlit("/clear");
            assert("/continue"@.len() != "/clear"@.len());
            reveal_strlit("/retry");
            assert("/continue"@.len() != "/retry"@.len());
        },
        SlashCommand::System => {
            reveal_strlit("/system");
            reveal_strlit("/quit");
            assert("/system"@.len() != "/quit"@.len());
            reveal_strlit("/clear");
            assert("/system"@.len() != "/clear"@.len());
            reveal_strlit("/retry");
            assert("/system"@.len() != "/retry"@.len());
            reveal_strlit("/continue");
            assert("/system"@.len() != "/continue"@.len());
        },
        SlashCommand::Config => {
            reveal_strlit("/config");
            reveal_strlit("/quit");
            assert("/config"@.len() != "/quit"@.len());
            reveal_strlit("/clear");
            assert("/config"@.len() != "/clear"@.len());
            reveal_strlit("/retry");
            assert("/config"@.len() != "/retry"@.len());
            reveal_strlit("/continue");
            assert("/config"@.len() != "/continue"@.len());
            reveal_strlit("/system");
            assert("/config"@[1] != "/system"@[1]);
        },
        SlashCommand::Branch => {
            reveal_strlit("/branch");
            reveal_strlit("/quit");
            assert("/branch"@.len() != "/quit"@.len());
            reveal_strlit("/clear");
            assert("/branch"@.len() != "/clear"@.len());
            reveal_strlit("/retry");
            assert("/branch"@.len() != "/retry"@.len());
            reveal_strlit("/continue");
            assert("/branch"@.len() != "/continue"@.len());
            reveal_strlit("/system");
            assert("/branch"@[1] != "/system"@[1]);
            reveal_strlit("/config");
            assert("/branch"@[1] != "/config"@[1]);
        },
        SlashCommand::Persona => {
            reveal_strlit("/persona");
            reveal_strlit("/quit");
            assert("/persona"@.len() != "/quit"@.len());
            reveal_strlit("/clear");
            assert("/persona"@.len() != "/clear"@.len());
            reveal_strlit("/retry");
            assert("/persona"@.len() != "/retry"@.len());
            reveal_strlit("/continue");
            assert("/persona"@.len() != "/continue"@.len());
            reveal_strlit("/system");
            assert("/persona"@.len() != "/system"@.len());
            reveal_strlit("/config");
            assert("/persona"@.len() != "/config"@.len());
            reveal_strlit("/branch");
            assert("/persona"@.len() != "/branch"@.len());
        },
        SlashCommand::Worldbook => {
            reveal_strlit("/worldbook");
            reveal_strlit("/quit");
            assert("/worldbook"@.len() != "/quit"@.len());
            reveal_strlit("/clear");
            assert("/worldbook"@.len() != "/clear"@.len());
            reveal_strlit("/retry");
            assert("/worldbook"@.len() != "/retry"@.len());
            reveal_strlit("/continue");
            assert("/worldbook"@.len() != "/continue"@.len());
            reveal_strlit("/system");
            assert("/worldbook"@.len() != "/system"@.len());
            reveal_strlit("/config");
            assert("/worldbook"@.len() != "/config"@.len());
            reveal_strlit("/branch");
            assert("/worldbook"@.len() != "/branch"@.len());
            reveal_strlit("/persona");
            assert("/worldbook"@.len() != "/persona"@.len());
        },
        SlashCommand::Character => {
            reveal_strlit("/character");
            reveal_strlit("/quit");
            assert("/character"@.len() != "/quit"@.len());
            reveal_strlit("/clear");
            assert("/character"@.len() != "/clear"@.len());
            reveal_strlit("/retry");
            assert("/character"@.len() != "/retry"@.len());
            reveal_strlit("/continue");
            assert("/character"@.len() != "/continue"@.len());
            reveal_strlit("/system");
            assert("/character"@.len() != "/system"@.len());
            reveal_strlit("/config");
            assert("/character"@.len() != "/config"@.len());
            reveal_strlit("/branch");
            assert("/character"@.len() != "/branch"@.len());
            reveal_strlit("/persona");
            assert("/character"@.len() != "/persona"@.len());
            reveal_strlit("/worldbook");
            assert("/character"@[1] != "/worldbook"@[1]);
        },
        SlashCommand::Passkey => {
            reveal_strlit("/passkey");
            reveal_strlit("/quit");
            assert("/passkey"@.len() != "/quit"@.len());
            reveal_strlit("/clear");
            assert("/passkey"@.len() != "/clear"@.len());
            reveal_strlit("/retry");
            assert("/passkey"@.len() != "/retry"@.len());
            reveal_strlit("/continue");
            assert("/passkey"@.len() != "/continue"@.len());
            reveal_strlit("/system");
            assert("/passkey"@.len() != "/system"@.len());
            reveal_strlit("/config");
            assert("/passkey"@.len() != "/config"@.len());
            reveal_strlit("/branch");
            assert("/passkey"@.len() != "/branch"@.len());
            reveal_strlit("/persona");
            assert("/passkey"@[2] != "/persona"@[2]);
            reveal_strlit("/worldbook");
            assert("/passkey"@.len() != "/worldbook"@.len());
            reveal_strlit("/character");
            assert("/passkey"@.len() != "/character"@.len());
        },
        SlashCommand::Theme => {
            reveal_strlit("/theme");
            reveal_strlit("/quit");
            assert("/theme"@.len() != "/quit"@.len());
            reveal_strlit("/clear");
            assert("/theme"@[1] != "/clear"@[1]);
            reveal_strlit("/retry");
            assert("/theme"@[1] != "/retry"@[1]);
            reveal_strlit("/continue");
            assert("/theme"@.len() != "/continue"@.len());
            reveal_strlit("/system");
            assert("/theme"@.len() != "/system"@.len());
            reveal_strlit("/config");
            assert("/theme"@.len() != "/config"@.len());
            reveal_strlit("/branch");
            assert("/theme"@.len() != "/branch"@.len());
            reveal_strlit("/persona");
            assert("/theme"@.len() != "/persona"@.len());
            reveal_strlit("/worldbook");
            assert("/theme"@.len() != "/worldbook"@.len());
            reveal_strlit("/character");
            assert("/theme"@.len() != "/character"@.len());
            reveal_strlit("/passkey");
            assert("/theme"@.len() != "/passkey"@.len());
        },
        SlashCommand::Export => {
            reveal_strlit("/export");
            reveal_strlit("/quit");
            assert("/export"@.len() != "/quit"@.len());
            reveal_strlit("/clear");
            assert("/export"@.len() != "/clear"@.len());
            reveal_strlit("/retry");
            assert("/export"@.len() != "/retry"@.len());
            reveal_strlit("/continue");
            assert("/export"@.len() != "/continue"@.len());
            reveal_strlit("/system");
            assert("/export"@[1] != "/system"@[1]);
            reveal_strlit("/config");
            assert("/export"@[1] != "/config"@[1]);
            reveal_strlit("/branch");
            assert("/export"@[1] != "/branch"@[1]);
            reveal_strlit("/persona");
            assert("/export"@.len() != "/persona"@.len());
            reveal_strlit("/worldbook");
            assert("/export"@.len() != "/worldbook"@.len());
            reveal_strlit("/character");
            assert("/export"@.len() != "/character"@.len());
            reveal_strlit("/passkey");
            assert("/export"@.len() != "/passkey"@.len());
            reveal_strlit("/theme");
            assert("/export"@.len() != "/theme"@.len());
        },
        SlashCommand::Macro => {
            reveal_strlit("/macro");
            reveal_strlit("/quit");
            assert("/macro"@.len() != "/quit"@.len());
            reveal_strlit("/clear");
            assert("/macro"@[1] != "/clear"@[1]);
            reveal_strlit("/retry");
            assert("/macro"@[1] != "/retry"@[1]);
            reveal_strlit("/continue");
            assert("/macro"@.len() != "/continue"@.len());
            reveal_strlit("/system");
            assert("/macro"@.len() != "/system"@.len());
            reveal_strlit("/config");
            assert("/macro"@.len() != "/config"@.len());
            reveal_strlit("/branch");
            assert("/macro"@.len() != "/branch"@.len());
            reveal_strlit("/persona");
            assert("/macro"@.len() != "/persona"@.len());
            reveal_strlit("/worldbook");
            assert("/macro"@.len() != "/worldbook"@.len());
            reveal_strlit("/character");
            assert("/macro"@.len() != "/character"@.len());
            reveal_strlit("/passkey");
            assert("/macro"@.len() != "/passkey"@.len());
            reveal_strlit("/theme");
            assert("/macro"@[1] != "/theme"@[1]);
            reveal_strlit("/export");
            assert("/macro"@.len() != "/export"@.len());
        },
        SlashCommand::Report => {
            reveal_strlit("/report");
            reveal_strlit("/quit");
            assert("/report"@.len() != "/quit"@.len());
            reveal_strlit("/clear");
            assert("/report"@.len() != "/clear"@.len());
            reveal_strlit("/retry");
            assert("/report"@.len() != "/retry"@.len());
            reveal_strlit("/continue");
            assert("/report"@.len() != "/continue"@.len());
            reveal_strlit("/system");
            assert("/report"@[1] != "/system"@[1]);
            reveal_strlit("/config");
            assert("/report"@[1] != "/config"@[1]);
            reveal_strlit("/branch");
            assert("/report"@[1] != "/branch"@[1]);
            reveal_strlit("/persona");
            assert("/report"@.len() != "/persona"@.len());
            reveal_strlit("/worldbook");
            assert("/report"@.len() != "/worldbook"@.len());
            reveal_strlit("/character");
            assert("/report"@.len() != "/character"@.len());
            reveal_strlit("/passkey");
            assert("/report"@.len() != "/passkey"@.len());
            reveal_strlit("/theme");
            assert("/report"@.len() != "/theme"@.len());
            reveal_strlit("/export");
            assert("/report"@[1] != "/export"@[1]);
            reveal_strlit("/macro");
            assert("/report"@.len() != "/macro"@.len());
        },
        SlashCommand::Unknown => {},
    }
}

/// Only the command names run commands: any other text is an unknown command, and a
/// text that runs a command is that command's name.
pub proof fn law_only_names_run_commands(name: Seq<char>)
    ensures
        command_named(name) != SlashCommand::Unknown ==> command_word(command_named(name)) == Some(name),
{
    if name == "/quit"@ {
        assert(command_word(command_named(name)) == Some("/quit"@));
    } else if name == "/clear"@ {
        assert(command_word(command_named(name)) == Some("/clear"@));
    } else if name == "/retry"@ {
        assert(command_word(command_named(name)) == Some("/retry"@));
    } else if name == "/continue"@ {
        assert(command_word(command_named(name)) == Some("/continue"@));
    } else if name == "/system"@ {
        assert(command_word(command_named(name)) == Some("/system"@));
    } else if name == "/config"@ {
        assert(command_word(command_named(name)) == Some("/config"@));
    } else if name == "/branch"@ {
        assert(command_word(command_named(name)) == Some("/branch"@));
    } else if name == "/persona"@ {
        assert(command_word(command_named(name)) == Some("/persona"@));
    } else if name == "/worldbook"@ {
        assert(command_word(command_named(name)) == Some("/worldbook"@));
    } else if name == "/character"@ {
        assert(command_word(command_named(name)) == Some("/character"@));
    } else if name == "/passkey"@ {
        assert(command_word(command_named(name)) == Some("/passkey"@));
    } else if name == "/theme"@ {
        assert(command_word(command_named(name)) == Some("/theme"@));
    } else if name == "/export"@ {
        assert(command_word(command_named(name)) == Some("/export"@));
    } else if name == "/macro"@ {
        assert(command_word(command_named(name)) == Some("/macro"@));
    } else if name == "/report"@ {
        assert(command_word(command_named(name)) == Some("/report"@));
    }
}

fn is(name: &String, lit: &str) -> (b: bool)
    ensures
        b == (name@ == lit@),
{
    *name == String::from_str(lit)
}

pub open spec fn unknown_command_text(name: Seq<char>) -> Seq<char> {
    "Unknown command: "@ + name
}

/// The command `name` (its alias already resolved) stands for; an unknown one is
/// reported in the status line.
pub fn parse_slash_command(name: &str, status: &mut Option<StatusMessage>) -> (c: SlashCommand)
    ensures
        c == command_named(name@),
        c == SlashCommand::Unknown ==> (*final(status) matches Some(m) && m.text@ == status_text_spec(unknown_command_text(name@))
            && m.level == StatusLevel::Warning),
        c != SlashCommand::Unknown ==> *final(status) == *old(status),
{
    let n = String::from_str(name);
    let c = if is(&n, "/quit") { SlashCommand::Quit }
        else if is(&n, "/clear") { SlashCommand::Clear }
        else if is(&n, "/retry") { SlashCommand::Retry }
        else if is(&n, "/continue") { SlashCommand::Continue }
        else if is(&n, "/system") { SlashCommand::System }
        else if is(&n, "/config") { SlashCommand::Config }
        else if is(&n, "/branch") { SlashCommand::Branch }
        else if is(&n, "/persona") { SlashCommand::Persona }
        else if is(&n, "/worldbook") { SlashCommand::Worldbook }
        else if is(&n, "/character") { SlashCommand::Character }
        else if is(&n, "/passkey") { SlashCommand::Passkey }
        else if is(&n, "/theme") { SlashCommand::Theme }
        else if is(&n, "/export") { SlashCommand::Export }
        else if is(&n, "/macro") { SlashCommand::Macro }
        else if is(&n, "/report") { SlashCommand::Report }
        else { SlashCommand::Unknown };
    if c == SlashCommand::Unknown {
        set_status(status, String::from_str("Unknown command: ").concat(name), StatusLevel::Warning);
    }
    c
}

// ---------------------------------------------------------------------
// /branch
// ---------------------------------------------------------------------

/// The message whose siblings `/branch` lists: the one the cursor is on, else the
/// next-to-last of the branch (the last when there is only one).
pub fn branch_target(path_ids: &Vec<usize>, nav_cursor: Option<usize>) -> (r: Option<usize>)
    ensures
        r == (match nav_cursor {
            Some(c) => Some(c),
            None => if path_ids@.len() >= 2 {
                Some(path_ids@[path_ids@.len() - 2])
            } else if path_ids@.len() == 1 {
                Some(path_ids@[0])
            } else {
                None
            },
        }),
{
    match nav_cursor {
        Some(c) => Some(c),
        None => {
            let n = path_ids.len();
            if n >= 2 {
                Some(path_ids[n - 2])
            } else if n == 1 {
                Some(path_ids[0])
            } else {
                None
            }
        },
    }
}

/// Why `/branch` shows nothing.
#[derive(Debug, Clone, Copy, PartialEq, Eq, Structural)]
pub enum BranchRefusal {
    NoMessages,
    NoBranches,
}

pub open spec fn branch_refusal_text(r: BranchRefusal) -> Seq<char> {
    match r {
        BranchRefusal::NoMessages => "No messages to branch."@,
        BranchRefusal::NoBranches => "No branches at this point."@,
    }
}

/// Whether `/branch` can show the siblings of its target (`None`: there are no
/// messages; else the number of siblings); refusals go to the status line.
pub fn check_branch(target: Option<usize>, sibling_count: usize, status: &mut Option<StatusMessage>) -> (ok: bool)
    ensures
        ok == (target is Some && sibling_count > 1),
        target is None ==> (*final(status) matches Some(m) && m.text@ == status_text_spec(branch_refusal_text(BranchRefusal::NoMessages))
            && m.level == StatusLevel::Warning),
        target is Some && sibling_count <= 1 ==> (*final(status) matches Some(m)
            && m.text@ == status_text_spec(branch_refusal_text(BranchRefusal::NoBranches)) && m.level == StatusLevel::Warning),
        ok ==> *final(status) == *old(status),
{
    if target.is_none() {
        set_status(status, String::from_str("No messages to branch."), StatusLevel::Warning);
        return false;
    }
    if sibling_count <= 1 {
        set_status(status, String::from_str("No branches at this point."), StatusLevel::Warning);
        return false;
    }
    true
}

/// The rows of the `/branch` list: each sibling with its label (its role in brackets,
/// then its preview), and the row of `target` to start on (the first when `target` is
/// not among the siblings). A sibling's text longer than 60 bytes must have a
/// character boundary at byte 60.
pub fn branch_items(
    siblings: &Vec<usize>,
    roles: &Vec<String>,
    contents: &Vec<String>,
    target: usize,
) -> (r: (Vec<(usize, String)>, usize))
    requires
        roles@.len() == siblings@.len(),
        contents@.len() == siblings@.len(),
        forall|k: int|
            0 <= k < contents@.len() ==> (utf8_len(#[trigger] contents@[k]@) > 60 ==> is_boundary(
                contents@[k]@,
                60,
            )),
    ensures
        r.0@.len() == siblings@.len(),
        forall|k: int|
            0 <= k < siblings@.len() ==> (#[trigger] r.0@[k]).0 == siblings@[k] && r.0@[k].1@ == "["@
                + roles@[k]@ + "] "@ + branch_preview_spec(contents@[k]@),
        r.1 == (match crate::navigation::pos_of(siblings@, target) {
            Some(p) => p,
            None => 0,
        }),
{
    let mut items: Vec<(usize, String)> = Vec::new();
    let mut k: usize = 0;
    while k < siblings.len()
        invariant
            k <= siblings@.len(),
            roles@.len() == siblings@.len(),
            contents@.len() == siblings@.len(),
            forall|j: int|
                0 <= j < contents@.len() ==> (utf8_len(#[trigger] contents@[j]@) > 60 ==> is_boundary(
                    contents@[j]@,
                    60,
                )),
            items@.len() == k,
            forall|j: int|
                0 <= j < k ==> (#[trigger] items@[j]).0 == siblings@[j] && items@[j].1@ == "["@
                    + roles@[j]@ + "] "@ + branch_preview_spec(contents@[j]@),
        decreases siblings.len() - k,
    {
        let label = branch_label(roles[k].as_str(), contents[k].as_str());
        items.push((siblings[k], label));
        k = k + 1;
    }
    let p = crate::navigation::position(siblings.as_slice(), target);
    let sel = match p {
        Some(i) => i,
        None => 0,
    };
    proof {
        match p {
            Some(i) => {
                assert(siblings@.contains(target));
                crate::text::lemma_first_index(siblings@, target);
                let f = crate::text::first_index(siblings@, target);
                if f < i {
                    assert(siblings@[f] == target);
                }
                if f > i {
                    assert(siblings@[i as int] == target);
                }
            },
            None => {
                if siblings@.contains(target) {
                    let j = choose|j: int| 0 <= j < siblings@.len() && siblings@[j] == target;
                    assert(siblings@[j] != target);
                }
            },
        }
    }
    (items, sel)
}

/// The number of characters whose UTF-8 encoding takes exactly `n` bytes.
pub open spec fn chars_in_bytes(s: Seq<char>, n: nat) -> int {
    choose|k: int| 0 <= k <= s.len() && utf8_len(s.take(k)) == n
}

/// `s` with newlines as spaces.
pub open spec fn one_line(s: Seq<char>) -> Seq<char> {
    Seq::new(s.len(), |i: int| if s[i] == '\n' { ' ' } else { s[i] })
}

/// The preview of a sibling in the branch list: its first 60 bytes and `...` when it
/// is longer, on one line.
pub open spec fn branch_preview_spec(content: Seq<char>) -> Seq<char> {
    if utf8_len(content) > 60 {
        one_line(content.take(chars_in_bytes(content, 60)) + "..."@)
    } else {
        one_line(content)
    }
}

/// The preview of a sibling in the branch list. A text longer than 60 bytes must
/// have a character boundary at byte 60 (the preview is cut there).
pub fn branch_preview(content: &str) -> (r: String)
    requires
        utf8_len(content@) > 60 ==> is_boundary(content@, 60),
    ensures
        r@ == branch_preview_spec(content@),
{
    let v = chars_of(content);
    let mut bytes: usize = 0;
    let mut k: usize = 0;
    while k < v.len() && bytes < 61
        invariant
            k <= v@.len(),
            bytes == utf8_len(v@.take(k as int)),
            bytes <= 64,
        decreases v.len() - k,
    {
        assert(v@.take(k + 1).drop_last() =~= v@.take(k as int));
        bytes = bytes + crate::text::utf8_width_exec(v[k]);
        k = k + 1;
    }
    let long = bytes > 60;
    proof {
        if long {
            crate::text::lemma_utf8_len_prefix(v@, k as int);
        } else {
            if k < v@.len() {
                assert(false);
            }
            assert(v@.take(k as int) =~= v@);
        }
    }
    let mut cut: Vec<char> = Vec::new();
    if long {
        let j = chars_for_bytes(&v, 60);
        cut = sub_chars(v.as_slice(), 0, j);
        assert(cut@ =~= v@.take(j as int));
        push_str(&mut cut, "...");
    } else {
        cut = sub_chars(v.as_slice(), 0, v.len());
        assert(cut@ =~= v@);
    }
    let ghost before = cut@;
    let mut i: usize = 0;
    while i < cut.len()
        invariant
            i <= cut@.len(),
            cut@.len() == before.len(),
            forall|t: int| 0 <= t < i ==> cut@[t] == (if before[t] == '\n' { ' ' } else { before[t] }),
            forall|t: int| i <= t < cut@.len() ==> cut@[t] == before[t],
        decreases cut.len() - i,
    {
        if cut[i] == '\n' {
            cut.set(i, ' ');
        }
        i = i + 1;
    }
    assert(cut@ =~= one_line(before));
    string_of(cut.as_slice())
}

/// The number of leading characters of `v` that take exactly `n` bytes (there is a
/// boundary there).
pub(crate) fn chars_for_bytes(v: &Vec<char>, n: usize) -> (k: usize)
    requires
        is_boundary(v@, n as nat),
    ensures
        k <= v@.len(),
        utf8_len(v@.take(k as int)) == n,
        k == chars_in_bytes(v@, n as nat),
{
    let ghost w = choose|w: int| 0 <= w <= v@.len() && utf8_len(#[trigger] v@.take(w)) == n;
    let mut bytes: usize = 0;
    let mut k: usize = 0;
    while bytes < n
        invariant
            k <= v@.len(),
            bytes == utf8_len(v@.take(k as int)),
            bytes <= n,
            0 <= w <= v@.len(),
            utf8_len(v@.take(w)) == n,
            k <= w,
        decreases n - bytes,
    {
        proof {
            if k == w {
                assert(false);
            }
            lemma_utf8_len_strict(v@, k as int, w);
        }
        assert(v@.take(k + 1).drop_last() =~= v@.take(k as int));
        assert(k < v.len());
        bytes = bytes + crate::text::utf8_width_exec(v[k]);
        k = k + 1;
        proof {
            if k > w {
                lemma_utf8_len_strict(v@, w, k as int);
            }
        }
    }
    proof {
        lemma_chars_in_bytes_unique(v@, n as nat, k as int);
    }
    k
}

proof fn lemma_utf8_len_strict(s: Seq<char>, a: int, b: int)
    requires
        0 <= a < b <= s.len(),
    ensures
        utf8_len(s.take(a)) < utf8_len(s.take(b)),
        utf8_len(s.take(a)) + crate::text::utf8_width(s[a]) <= utf8_len(s.take(b)),
    decreases b - a,
{
    assert(s.take(b).drop_last() =~= s.take(b - 1));
    if a + 1 < b {
        lemma_utf8_len_strict(s, a, b - 1);
    } else {
        assert(s.take(b).last() == s[a]);
    }
}

proof fn lemma_chars_in_bytes_unique(s: Seq<char>, n: nat, k: int)
    requires
        0 <= k <= s.len(),
        utf8_len(s.take(k)) == n,
    ensures
        chars_in_bytes(s, n) == k,
{
    let c = chars_in_bytes(s, n);
    assert(0 <= c <= s.len() && utf8_len(s.take(c)) == n);
    if c < k {
        lemma_utf8_len_strict(s, c, k);
    } else if c > k {
        lemma_utf8_len_strict(s, k, c);
    }
}

/// The line of a sibling in the branch list: its role in brackets, then its preview.
pub fn branch_label(role: &str, content: &str) -> (r: String)
    requires
        utf8_len(content@) > 60 ==> is_boundary(content@, 60),
    ensures
        r@ == "["@ + role@ + "] "@ + branch_preview_spec(content@),
{
    let p = branch_preview(content);
    String::from_str("[").concat(role).concat("] ").concat(p.as_str())
}

// ---------------------------------------------------------------------
// /passkey, /theme, /macro
// ---------------------------------------------------------------------

/// How sessions are stored.
#[derive(Debug, Clone, Copy, PartialEq, Eq, Structural)]
pub enum SaveModeKind {
    /// In the encrypted database.
    Database,
    /// Not at all.
    Off,
    /// Waiting for the passkey.
    PendingPasskey,
}

pub open spec fn passkey_refusal(mode: SaveModeKind, db_open: bool) -> Option<(Seq<char>, StatusLevel)> {
    match mode {
        SaveModeKind::Database => if db_open { None } else { Some(("Database not available."@, StatusLevel::Error)) },
        SaveModeKind::Off => Some(("Encryption is disabled for this session."@, StatusLevel::Warning)),
        SaveModeKind::PendingPasskey => Some(("Please unlock sessions first."@, StatusLevel::Warning)),
    }
}

/// Whether `/passkey` opens the dialog for a new passkey: only with the database
/// open; otherwise the status line says why not.
pub fn passkey_command(mode: SaveModeKind, db_open: bool, status: &mut Option<StatusMessage>) -> (open: bool)
    ensures
        open == (passkey_refusal(mode, db_open) is None),
        match passkey_refusal(mode, db_open) {
            None => *final(status) == *old(status),
            Some((t, l)) => *final(status) matches Some(m) && m.text@ == status_text_spec(t) && m.level == l,
        },
{
    match mode {
        SaveModeKind::Database => {
            if db_open {
                true
            } else {
                set_status(status, String::from_str("Database not available."), StatusLevel::Error);
                false
            }
        },
        SaveModeKind::Off => {
            set_status(status, String::from_str("Encryption is disabled for this session."), StatusLevel::Warning);
            false
        },
        SaveModeKind::PendingPasskey => {
            set_status(status, String::from_str("Please unlock sessions first."), StatusLevel::Warning);
            false
        },
    }
}

/// What `/theme` does.
#[derive(Debug, Clone, PartialEq, Eq)]
pub enum ThemeCommand {
    /// No argument: open the theme editor.
    OpenEditor,
    /// Switch to the built-in theme of this name.
    Switch(String),
    /// The name is unknown (the status line says so).
    Unknown,
}

/// The known theme names, separated by `, `.
pub open spec fn names_joined(names: Seq<Seq<char>>) -> Seq<char>
    decreases names.len(),
{
    if names.len() == 0 {
        Seq::empty()
    } else if names.len() == 1 {
        names[0]
    } else {
        names_joined(names.drop_last()) + ", "@ + names.last()
    }
}

pub open spec fn unknown_theme_text(name: Seq<char>) -> Seq<char> {
    "Unknown theme: "@ + name + ". Available: "@ + names_joined(theme_names())
}

fn join_names(names: &Vec<&'static str>) -> (r: String)
    ensures
        r@ == names_joined(names@.map_values(|s: &'static str| s@)),
{
    let ghost ns = names@.map_values(|s: &'static str| s@);
    let mut out: Vec<char> = Vec::new();
    let mut i: usize = 0;
    while i < names.len()
        invariant
            i <= names@.len(),
            ns == names@.map_values(|s: &'static str| s@),
            out@ == names_joined(ns.take(i as int)),
        decreases names.len() - i,
    {
        let ghost before = out@;
        if i > 0 {
            push_str(&mut out, ", ");
        }
        push_str(&mut out, names[i]);
        proof {
            let t = ns.take(i + 1);
            assert(t.drop_last() =~= ns.take(i as int));
            assert(t.last() == names@[i as int]@);
            if i == 0 {
                assert(out@ =~= names@[0]@);
            } else {
                assert(out@ =~= before + ", "@ + names@[i as int]@);
            }
        }
        i = i + 1;
    }
    assert(ns.take(i as int) =~= ns);
    string_of(out.as_slice())
}

/// Decides `/theme arg`: no argument opens the editor; a built-in theme's name (after
/// trimming) switches to it; another name is refused, listing the known ones.
pub fn theme_command(arg: &str, status: &mut Option<StatusMessage>) -> (r: ThemeCommand)
    ensures
        ({
            let a = trim(arg@);
            if a.len() == 0 {
                r == ThemeCommand::OpenEditor && *final(status) == *old(status)
            } else if theme_named(a) is Some {
                r matches ThemeCommand::Switch(n) && n@ == a && *final(status) == *old(status)
            } else {
                r == ThemeCommand::Unknown && (*final(status) matches Some(m)
                    && m.text@ == status_text_spec(unknown_theme_text(a)) && m.level == StatusLevel::Error)
            }
        }),
{
    let v = chars_of(arg);
    let t = trim_chars(v.as_slice());
    let name = string_of(t.as_slice());
    if t.len() == 0 {
        return ThemeCommand::OpenEditor;
    }
    if Theme::from_name(name.as_str()).is_some() {
        return ThemeCommand::Switch(name);
    }
    let available = Theme::available_themes();
    proof {
        assert(available@.map_values(|s: &'static str| s@) =~= theme_names());
    }
    let list = join_names(&available);
    let msg = String::from_str("Unknown theme: ").concat(name.as_str()).concat(". Available: ").concat(list.as_str());
    set_status(status, msg, StatusLevel::Error);
    ThemeCommand::Unknown
}

/// What `/macro` does.
#[derive(Debug, Clone, PartialEq, Eq)]
pub enum MacroCommand {
    /// No argument: the status line lists the macros (or says there are none).
    Listed,
    /// No macro has that name (the status line says so).
    Unknown,
    /// Send the expanded text.
    Send(String),
    /// The expansion failed (the status line says why).
    Failed,
}

/// The first word of `a` and the rest after the first space (`split_once(' ')`).
pub open spec fn split_first_space(a: Seq<char>) -> (Seq<char>, Seq<char>) {
    let p = first_index(a, ' ');
    if p < a.len() { (a.take(p), a.skip(p + 1)) } else { (a, Seq::empty()) }
}

/// The template of macro `name` in `macros` (the first with that name).
pub open spec fn macro_template(macros: Seq<(Seq<char>, Seq<char>)>, name: Seq<char>) -> Option<Seq<char>>
    decreases macros.len(),
{
    if macros.len() == 0 {
        None
    } else if macros[0].0 == name {
        Some(macros[0].1)
    } else {
        macro_template(macros.drop_first(), name)
    }
}

pub open spec fn pair_views(m: Seq<(String, String)>) -> Seq<(Seq<char>, Seq<char>)> {
    m.map_values(|p: (String, String)| (p.0@, p.1@))
}

pub open spec fn no_macros_text() -> Seq<char> {
    "No macros defined. Add [macros] to config.toml"@
}

pub open spec fn macro_list_text(names: Seq<Seq<char>>) -> Seq<char> {
    "Available macros: "@ + names_joined(names)
}

pub open spec fn unknown_macro_text(name: Seq<char>) -> Seq<char> {
    "Unknown macro: "@ + name
}

/// Decides `/macro arg` over the configured `macros` (name and template, in the
/// config's order): no argument lists them; otherwise the first word names the macro
/// and the rest are its arguments.
pub fn macro_command(arg: &str, macros: &Vec<(String, String)>, status: &mut Option<StatusMessage>) -> (r: MacroCommand)
    ensures
        ({
            let a = trim(arg@);
            let (name, args) = split_first_space(a);
            let names = pair_views(macros@).map_values(|p: (Seq<char>, Seq<char>)| p.0);
            if a.len() == 0 {
                &&& r == MacroCommand::Listed
                &&& *final(status) matches Some(m)
                &&& if macros@.len() == 0 {
                    m.text@ == status_text_spec(no_macros_text()) && m.level == StatusLevel::Warning
                } else {
                    m.text@ == status_text_spec(macro_list_text(names)) && m.level == StatusLevel::Info
                }
            } else {
                match macro_template(pair_views(macros@), name) {
                    None => r == MacroCommand::Unknown && (*final(status) matches Some(m)
                        && m.text@ == status_text_spec(unknown_macro_text(name)) && m.level == StatusLevel::Warning),
                    Some(t) => match expand_spec(t, args) {
                        Ok(x) => r matches MacroCommand::Send(s) && s@ == x && *final(status) == *old(status),
                        Err(e) => r == MacroCommand::Failed && (*final(status) matches Some(m)
                            && m.text@ == status_text_spec(e) && m.level == StatusLevel::Error),
                    },
                }
            }
        }),
{
    let v = chars_of(arg);
    let t = trim_chars(v.as_slice());
    if t.len() == 0 {
        if macros.len() == 0 {
            set_status(status, String::from_str("No macros defined. Add [macros] to config.toml"), StatusLevel::Warning);
        } else {
            let list = join_macro_names(macros);
            set_status(status, String::from_str("Available macros: ").concat(list.as_str()), StatusLevel::Info);
        }
        return MacroCommand::Listed;
    }
    proof { crate::text::lemma_first_index(t@, ' '); }
    let mut p: usize = 0;
    while p < t.len() && t[p] != ' '
        invariant
            p <= t@.len(),
            forall|k: int| 0 <= k < p ==> t@[k] != ' ',
            0 <= first_index(t@, ' ') <= t@.len(),
            first_index(t@, ' ') < t@.len() ==> t@[first_index(t@, ' ')] == ' ',
            forall|k: int| 0 <= k < first_index(t@, ' ') ==> t@[k] != ' ',
        decreases t.len() - p,
    {
        p = p + 1;
    }
    assert(p == first_index(t@, ' '));
    let name_chars = sub_chars(t.as_slice(), 0, p);
    let rest = if p < t.len() { sub_chars(t.as_slice(), p + 1, t.len()) } else { Vec::new() };
    assert(name_chars@ =~= split_first_space(t@).0);
    assert(rest@ =~= split_first_space(t@).1);
    let name = string_of(name_chars.as_slice());
    let args = string_of(rest.as_slice());
    match find_macro(macros, name.as_str()) {
        None => {
            set_status(status, String::from_str("Unknown macro: ").concat(name.as_str()), StatusLevel::Warning);
            MacroCommand::Unknown
        },
        Some(i) => {
            match expand_macro(macros[i].1.as_str(), args.as_str()) {
                Ok(x) => MacroCommand::Send(x),
                Err(e) => {
                    set_status(status, e, StatusLevel::Error);
                    MacroCommand::Failed
                },
            }
        },
    }
}

fn find_macro(macros: &Vec<(String, String)>, name: &str) -> (r: Option<usize>)
    ensures
        match r {
            Some(i) => i < macros@.len() && macro_template(pair_views(macros@), name@) == Some(macros@[i as int].1@),
            None => macro_template(pair_views(macros@), name@) is None,
        },
{
    let n = String::from_str(name);
    let ghost all = pair_views(macros@);
    let mut i: usize = 0;
    assert(all.skip(0) =~= all);
    while i < macros.len()
        invariant
            i <= macros@.len(),
            n@ == name@,
            all == pair_views(macros@),
            macro_template(all, name@) == macro_template(all.skip(i as int), name@),
        decreases macros.len() - i,
    {
        let ghost rest = all.skip(i as int);
        assert(rest.drop_first() =~= all.skip(i + 1));
        assert(rest[0] == (macros@[i as int].0@, macros@[i as int].1@));
        if macros[i].0 == n {
            return Some(i);
        }
        i = i + 1;
    }
    assert(all.skip(i as int).len() == 0);
    None
}

fn join_macro_names(macros: &Vec<(String, String)>) -> (r: String)
    ensures
        r@ == names_joined(pair_views(macros@).map_values(|p: (Seq<char>, Seq<char>)| p.0)),
{
    let ghost ns = pair_views(macros@).map_values(|p: (Seq<char>, Seq<char>)| p.0);
    let mut out: Vec<char> = Vec::new();
    let mut i: usize = 0;
    while i < macros.len()
        invariant
            i <= macros@.len(),
            ns == pair_views(macros@).map_values(|p: (Seq<char>, Seq<char>)| p.0),
            out@ == names_joined(ns.take(i as int)),
        decreases macros.len() - i,
    {
        let ghost before = out@;
        if i > 0 {
            push_str(&mut out, ", ");
        }
        push_str(&mut out, macros[i].0.as_str());
        proof {
            let t = ns.take(i + 1);
            assert(t.drop_last() =~= ns.take(i as int));
            assert(t.last() == macros@[i as int].0@);
            if i == 0 {
                assert(out@ =~= macros@[0].0@);
            } else {
                assert(out@ =~= before + ", "@ + macros@[i as int].0@);
            }
        }
        i = i + 1;
    }
    assert(ns.take(i as int) =~= ns);
    string_of(out.as_slice())
}

} // verus!
