//! The chat input: when the slash-command picker shows, picking a command from it,
//! and what pressing Enter submits.

use vstd::prelude::*;
use crate::keys::{KeyCode, KeyEvent};
use crate::text::{
    chars_of, string_of, sub_chars, trim, trim_chars, push_all, push_str, first_index,
    lemma_first_index, string_views, is_ws, trim_lo, trim_hi,
    lemma_trim_bounds, lemma_skip_ws_bounds, lemma_back_ws_bounds,
};

verus! {

/// Whether the command picker shows for the input `lines`: not while a reply streams,
/// and only for a single line that starts with `/` and holds no space.
pub open spec fn picker_shows(is_streaming: bool, lines: Seq<Seq<char>>) -> bool {
    &&& !is_streaming
    &&& lines.len() == 1
    &&& lines[0].len() > 0
    &&& lines[0][0] == '/'
    &&& !lines[0].contains(' ')
}

/// Whether the command picker shows (see `picker_shows`).
pub fn input_has_command_picker(is_streaming: bool, lines: &[String]) -> (b: bool)
    ensures
        b == picker_shows(is_streaming, string_views(lines@)),
{
    if is_streaming {
        return false;
    }
    if lines.len() != 1 {
        return false;
    }
    let v = chars_of(lines[0].as_str());
    assert(string_views(lines@)[0] == v@);
    if v.len() == 0 || v[0] != '/' {
        return false;
    }
    let mut i: usize = 0;
    while i < v.len()
        invariant
            i <= v.len(),
            lines@.len() == 1,
            string_views(lines@)[0] == v@,
            forall|k: int| 0 <= k < i ==> v@[k] != ' ',
        decreases v.len() - i,
    {
        if v[i] == ' ' {
            assert(v@.contains(' ')) by {
                assert(v@[i as int] == ' ');
            }
            return false;
        }
        i = i + 1;
    }
    true
}

/// The lines of the input joined with newlines.
pub open spec fn join_lines(lines: Seq<Seq<char>>) -> Seq<char>
    decreases lines.len(),
{
    if lines.len() == 0 {
        Seq::empty()
    } else if lines.len() == 1 {
        lines[0]
    } else {
        join_lines(lines.drop_last()).push('\n') + lines.last()
    }
}

/// What pressing Enter (without Alt) submits.
#[derive(Debug, Clone, PartialEq, Eq)]
pub enum Submission {
    /// The input is blank: nothing is sent.
    Empty,
    /// A slash command and its argument.
    SlashCommand(String, String),
    /// A message to send.
    Message(String),
}

/// The submission for input text `text`, as views: `None` for a blank input, else
/// `(true, command, argument)` for a slash command (the word before the first space,
/// and the trimmed rest) or `(false, message, "")` with the trimmed message.
pub open spec fn submission_of(text: Seq<char>) -> Option<(bool, Seq<char>, Seq<char>)> {
    let t = trim(text);
    if t.len() == 0 {
        None
    } else if t[0] == '/' {
        let p = first_index(t, ' ');
        Some(
            (
                true,
                t.take(p),
                if p < t.len() {
                    trim(t.skip(p + 1))
                } else {
                    Seq::empty()
                },
            ),
        )
    } else {
        Some((false, t, Seq::empty()))
    }
}

/// How a slash command `cmd` with argument `arg` sits in the trimmed input `t`: `cmd`
/// is the start of `t` up to its first space (or all of it); after that space come
/// only whitespace and then `arg`, which runs to the end of `t` and starts with no
/// whitespace. So `cmd`, a space, some whitespace and `arg` put back together give `t`.
pub open spec fn slash_parts(t: Seq<char>, cmd: Seq<char>, arg: Seq<char>) -> bool {
    &&& cmd.len() <= t.len()
    &&& t.subrange(0, cmd.len() as int) == cmd
    &&& !cmd.contains(' ')
    &&& cmd.len() == t.len() ==> arg.len() == 0
    &&& cmd.len() < t.len() ==> {
        &&& t[cmd.len() as int] == ' '
        &&& cmd.len() + 1 + arg.len() <= t.len()
        &&& t.subrange(t.len() - arg.len(), t.len() as int) == arg
        &&& forall|j: int| cmd.len() < j < t.len() - arg.len() ==> is_ws(#[trigger] t[j])
        &&& arg.len() > 0 ==> !is_ws(arg[0])
    }
}

/// A blank input submits nothing; an input whose trimmed text starts with `/` is a
/// command, the word before the first space, with the whole trimmed rest after that
/// space as its argument, so no part of the input is lost; any other input is a
/// message, the trimmed text.
pub proof fn law_submission_keeps_the_input(text: Seq<char>)
    ensures
        submission_of(text) is None <==> trim(text).len() == 0,
        submission_of(text) matches Some((is_command, body, arg)) ==> {
            &&& is_command <==> trim(text)[0] == '/'
            &&& is_command ==> slash_parts(trim(text), body, arg)
            &&& !is_command ==> body == trim(text) && arg.len() == 0
        },
{
    let t = trim(text);
    lemma_trim_bounds(text);
    if t.len() > 0 && t[0] == '/' {
        let p = first_index(t, ' ');
        lemma_first_index(t, ' ');
        lemma_skip_ws_bounds(text, 0);
        lemma_back_ws_bounds(text, trim_lo(text), text.len() as int);
        assert(!is_ws(t.last()));
        let cmd = t.take(p);
        assert(t.subrange(0, cmd.len() as int) =~= cmd);
        assert(!cmd.contains(' ')) by {
            if cmd.contains(' ') {
                let w = choose|w: int| 0 <= w < cmd.len() && cmd[w] == ' ';
                assert(t[w] == ' ');
            }
        }
        if p < t.len() {
            let u = t.skip(p + 1);
            lemma_skip_ws_bounds(u, 0);
            let ulo = trim_lo(u);
            if u.len() > 0 {
                assert(u.last() == t.last());
            }
            assert(trim_hi(u) == u.len());
            let arg = trim(u);
            assert(arg =~= t.subrange(t.len() - arg.len(), t.len() as int));
            assert forall|j: int| p < j < t.len() - arg.len() implies is_ws(#[trigger] t[j]) by {
                assert(t[j] == u[j - p - 1]);
            }
            if arg.len() > 0 {
                assert(arg[0] == u[ulo]);
            }
        }
    }
}

pub(crate) fn join_input_lines(lines: &[String]) -> (r: Vec<char>)
    ensures
        r@ == join_lines(string_views(lines@)),
{
    let ghost ls = string_views(lines@);
    let mut out: Vec<char> = Vec::new();
    let mut i: usize = 0;
    while i < lines.len()
        invariant
            i <= lines.len(),
            ls == string_views(lines@),
            out@ == join_lines(ls.take(i as int)),
        decreases lines.len() - i,
    {
        let ghost before = out@;
        if i > 0 {
            out.push('\n');
        }
        push_str(&mut out, lines[i].as_str());
        proof {
            let t = ls.take(i + 1);
            assert(t.drop_last() =~= ls.take(i as int));
            assert(t.last() == lines@[i as int]@);
            if i == 0 {
                assert(ls.take(0) =~= Seq::<Seq<char>>::empty());
                assert(out@ =~= lines@[0]@);
            } else {
                assert(out@ =~= before.push('\n') + lines@[i as int]@);
            }
        }
        i = i + 1;
    }
    assert(ls.take(i as int) =~= ls);
    out
}

/// What Enter submits for the input `lines` (see `submission_of`).
pub fn parse_submission(lines: &[String]) -> (r: Submission)
    ensures
        match submission_of(join_lines(string_views(lines@))) {
            None => r == Submission::Empty,
            Some((is_cmd, a, b)) => if is_cmd {
                r matches Submission::SlashCommand(c, arg) && c@ == a && arg@ == b
            } else {
                r matches Submission::Message(m) && m@ == a
            },
        },
{
    let text = join_input_lines(lines);
    let t = trim_chars(text.as_slice());
    if t.len() == 0 {
        return Submission::Empty;
    }
    if t[0] == '/' {
        proof {
            lemma_first_index(t@, ' ');
        }
        let mut p: usize = 0;
        while p < t.len() && t[p] != ' '
            invariant
                p <= t.len(),
                forall|k: int| 0 <= k < p ==> t@[k] != ' ',
                0 <= first_index(t@, ' ') <= t@.len(),
                first_index(t@, ' ') < t@.len() ==> t@[first_index(t@, ' ')] == ' ',
                forall|k: int| 0 <= k < first_index(t@, ' ') ==> t@[k] != ' ',
            decreases t.len() - p,
        {
            p = p + 1;
        }
        assert(p == first_index(t@, ' '));
        let cmd = sub_chars(t.as_slice(), 0, p);
        assert(cmd@ =~= t@.take(p as int));
        let arg = if p < t.len() {
            let rest = sub_chars(t.as_slice(), p + 1, t.len());
            assert(rest@ =~= t@.skip(p + 1));
            trim_chars(rest.as_slice())
        } else {
            Vec::new()
        };
        return Submission::SlashCommand(string_of(cmd.as_slice()), string_of(arg.as_slice()));
    }
    Submission::Message(string_of(t.as_slice()))
}

// ---------------------------------------------------------------------
// The command picker
// ---------------------------------------------------------------------

/// A command the picker offers: its name (with the leading `/`) and whether it takes
/// arguments.
#[derive(Debug, Clone)]
pub struct CommandMatch {
    pub name: String,
    pub takes_args: bool,
}

/// What a key does while the command picker shows.
#[derive(Debug, Clone, PartialEq, Eq)]
pub enum PickerOutcome {
    /// The picker does not use the key; the input handles it.
    NotHandled,
    /// The key moved the selection.
    Moved,
    /// Replace the input with this text (the command, and a space when it takes
    /// arguments).
    Complete(String),
    /// Clear the input and run this command, which takes no argument.
    Run(String),
}

/// The selected index, kept within `n` matches.
pub open spec fn clamp_selected(sel: usize, n: nat) -> int {
    if n == 0 {
        0
    } else if sel < n {
        sel as int
    } else {
        n - 1
    }
}

/// The text that completing command `m` puts in the input.
pub open spec fn completion(m: CommandMatch) -> Seq<char> {
    if m.takes_args {
        m.name@.push(' ')
    } else {
        m.name@
    }
}

/// Up and Down move the selection, Tab or Space completes the selected command, and
/// Enter runs it (or, when it takes arguments, completes it). With no match, only Up
/// and Down are the picker's.
pub fn handle_picker_key(key: KeyEvent, selected: &mut usize, matches: &[CommandMatch]) -> (r:
    PickerOutcome)
    ensures
        ({
            let n = matches@.len();
            let sel = *old(selected);
            let m = matches@[clamp_selected(sel, n)];
            match key.code {
                KeyCode::Up => r == PickerOutcome::Moved && *final(selected) == (if sel == 0 {
                    0
                } else {
                    (sel - 1) as usize
                }),
                KeyCode::Down => r == PickerOutcome::Moved && *final(selected) == (if n == 0 {
                    0
                } else if sel + 1 < n {
                    (sel + 1) as usize
                } else {
                    (n - 1) as usize
                }),
                KeyCode::Tab => if n > 0 {
                    *final(selected) == 0 && (r matches PickerOutcome::Complete(t) && t@ == completion(m))
                } else {
                    r == PickerOutcome::NotHandled && *final(selected) == sel
                },
                KeyCode::Char(c) => if c == ' ' && n > 0 {
                    *final(selected) == 0 && (r matches PickerOutcome::Complete(t) && t@ == completion(m))
                } else {
                    r == PickerOutcome::NotHandled && *final(selected) == sel
                },
                KeyCode::Enter => if n > 0 {
                    *final(selected) == 0 && if m.takes_args {
                        r matches PickerOutcome::Complete(t) && t@ == completion(m)
                    } else {
                        r matches PickerOutcome::Run(t) && t@ == m.name@
                    }
                } else {
                    r == PickerOutcome::NotHandled && *final(selected) == sel
                },
                _ => r == PickerOutcome::NotHandled && *final(selected) == sel,
            }
        }),
{
    let n = matches.len();
    let is_complete_key = match key.code {
        KeyCode::Tab => true,
        KeyCode::Char(c) => c == ' ',
        _ => false,
    };
    match key.code {
        KeyCode::Up => {
            *selected = if *selected == 0 {
                0
            } else {
                *selected - 1
            };
            return PickerOutcome::Moved;
        },
        KeyCode::Down => {
            *selected = if n == 0 {
                0
            } else if *selected < n - 1 {
                *selected + 1
            } else {
                n - 1
            };
            return PickerOutcome::Moved;
        },
        _ => {},
    }
    let is_enter = key.code == KeyCode::Enter;
    if n == 0 || !(is_complete_key || is_enter) {
        return PickerOutcome::NotHandled;
    }
    let i = if *selected < n {
        *selected
    } else {
        n - 1
    };
    let m = &matches[i];
    *selected = 0;
    if is_enter && !m.takes_args {
        return PickerOutcome::Run(m.name.clone());
    }
    let mut t = m.name.clone();
    if m.takes_args {
        crate::text::push_char(&mut t, ' ');
    }
    PickerOutcome::Complete(t)
}

// ---------------------------------------------------------------------
// Keys in the input (the command picker aside)
// ---------------------------------------------------------------------

/// What a key in the input asks for, once the command picker (if it shows) has
/// passed it on.
#[derive(Debug, Clone, PartialEq, Eq)]
pub enum InputKey {
    /// A reply is streaming: the input takes no keys here.
    Ignored,
    /// Up in an empty input: move the cursor to the previous message of the user.
    NavigateUp,
    /// Down in an empty input with a cursor: the next one.
    NavigateDown,
    /// Left/Right in an empty input with a cursor: the previous (`false`) or next
    /// sibling of the message under it.
    SwitchSibling(bool),
    /// Enter on a blank input with a cursor: bring the message under it back into the
    /// input.
    Recall,
    /// Enter on a blank input without a cursor: nothing.
    Nothing,
    /// Enter: clear the input and send this.
    Submit(Submission),
    /// Ctrl-V / Ctrl-X: paste or cut.
    Clipboard,
    /// Any other key is typed.
    Type,
}

/// Routes a key in the input holding `lines` (`blank`: every line is blank), with
/// the message cursor set or not.
pub fn route_input_key(key: KeyEvent, lines: &[String], blank: bool, nav_cursor: bool, is_streaming: bool) -> (r: InputKey)
    requires
        blank == forall|i: int| 0 <= i < lines@.len() ==> #[trigger] trim(lines@[i]@).len() == 0,
    ensures
        is_streaming ==> r == InputKey::Ignored,
        !is_streaming ==> match key.code {
            KeyCode::Up if blank => r == InputKey::NavigateUp,
            KeyCode::Down if nav_cursor && blank => r == InputKey::NavigateDown,
            KeyCode::Left if nav_cursor && blank => r == InputKey::SwitchSibling(false),
            KeyCode::Right if nav_cursor && blank => r == InputKey::SwitchSibling(true),
            KeyCode::Enter if !key.modifiers.alt => match submission_of(join_lines(string_views(lines@))) {
                None => r == (if nav_cursor { InputKey::Recall } else { InputKey::Nothing }),
                Some((is_cmd, a, b)) => r matches InputKey::Submit(sub) && if is_cmd {
                    sub matches Submission::SlashCommand(c, arg) && c@ == a && arg@ == b
                } else {
                    sub matches Submission::Message(m) && m@ == a
                },
            },
            KeyCode::Char(c) if key.modifiers.control && (c == 'v' || c == 'x') => r == InputKey::Clipboard,
            _ => r == InputKey::Type,
        },
{
    if is_streaming {
        return InputKey::Ignored;
    }
    match key.code {
        KeyCode::Up if blank => InputKey::NavigateUp,
        KeyCode::Down if nav_cursor && blank => InputKey::NavigateDown,
        KeyCode::Left if nav_cursor && blank => InputKey::SwitchSibling(false),
        KeyCode::Right if nav_cursor && blank => InputKey::SwitchSibling(true),
        KeyCode::Enter if !key.modifiers.alt => {
            match parse_submission(lines) {
                Submission::Empty => if nav_cursor { InputKey::Recall } else { InputKey::Nothing },
                sub => InputKey::Submit(sub),
            }
        },
        KeyCode::Char(c) if key.modifiers.control && (c == 'v' || c == 'x') => InputKey::Clipboard,
        _ => InputKey::Type,
    }
}

} // verus!
