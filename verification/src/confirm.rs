//! Small modal dialogs: the Danger tab of `/config` and its confirmations, the
//! template-mismatch prompt, the unsaved-changes warning and the injection warning.

use vstd::prelude::*;
use crate::keys::{KeyCode, KeyEvent};
use crate::text::{chars_of, char_count, insert_char_at, remove_char_at, clamp_pos, push_str, push_decimal, decimal, string_of};

verus! {

// ---------------------------------------------------------------------
// Danger tab
// ---------------------------------------------------------------------

/// A destructive maintenance operation offered on the Danger tab.
#[derive(Debug, Clone, Copy, PartialEq, Eq, Structural)]
pub enum DangerOp {
    ClearStores,
    RegeneratePresets,
    PurgeChats,
    PurgeCharacters,
    PurgePersonas,
    PurgeWorldbooks,
    DestroyAll,
}

/// Index of the Danger tab within the `/config` dialog's sections.
pub const DANGER_TAB_INDEX: usize = 5;

/// Number of entries on the Danger tab.
pub const DANGER_ITEM_COUNT: usize = 7;

/// The operation listed at `i` on the Danger tab.
pub open spec fn danger_op_spec(i: int) -> DangerOp {
    if i == 0 {
        DangerOp::ClearStores
    } else if i == 1 {
        DangerOp::RegeneratePresets
    } else if i == 2 {
        DangerOp::PurgeChats
    } else if i == 3 {
        DangerOp::PurgeCharacters
    } else if i == 4 {
        DangerOp::PurgePersonas
    } else if i == 5 {
        DangerOp::PurgeWorldbooks
    } else {
        DangerOp::DestroyAll
    }
}

/// The operation listed at `i` on the Danger tab, with its label.
pub fn danger_item(i: usize) -> (r: (DangerOp, &'static str))
    requires
        i < DANGER_ITEM_COUNT,
    ensures
        r.0 == danger_op_spec(i as int),
{
    if i == 0 {
        (DangerOp::ClearStores, "1. Clear Stores")
    } else if i == 1 {
        (DangerOp::RegeneratePresets, "2. Regenerate Presets")
    } else if i == 2 {
        (DangerOp::PurgeChats, "3. Purge Chats")
    } else if i == 3 {
        (DangerOp::PurgeCharacters, "4. Purge Characters")
    } else if i == 4 {
        (DangerOp::PurgePersonas, "5. Purge Personas")
    } else if i == 5 {
        (DangerOp::PurgeWorldbooks, "6. Purge Worldbooks")
    } else {
        (DangerOp::DestroyAll, "7. Destroy All Data")
    }
}

/// What a key press on the Danger tab asks for.
#[derive(Debug, Clone, Copy, PartialEq, Eq, Structural)]
pub enum DangerTabResult {
    Pending,
    OpenConfirm(DangerOp),
    /// The key is not the tab's; the surrounding dialog handles it.
    Passthrough,
}

/// Up and Down move the selection with wrap-around, Enter asks to confirm the selected
/// operation, and every other key passes through.
pub fn handle_danger_tab_key(key: KeyEvent, selected: &mut usize) -> (r: DangerTabResult)
    requires
        key.code == KeyCode::Enter ==> *old(selected) < DANGER_ITEM_COUNT,
        key.code == KeyCode::Down ==> *old(selected) < usize::MAX,
    ensures
        match key.code {
            KeyCode::Up => r == DangerTabResult::Pending && *final(selected) == (if *old(selected)
                == 0 {
                DANGER_ITEM_COUNT - 1
            } else {
                *old(selected) - 1
            }),
            KeyCode::Down => r == DangerTabResult::Pending && *final(selected) == (*old(selected)
                + 1) % (DANGER_ITEM_COUNT as int),
            KeyCode::Enter => r == DangerTabResult::OpenConfirm(danger_op_spec(*old(selected) as int))
                && *final(selected) == *old(selected),
            _ => r == DangerTabResult::Passthrough && *final(selected) == *old(selected),
        },
{
    match key.code {
        KeyCode::Up => {
            *selected = if *selected == 0 {
                DANGER_ITEM_COUNT - 1
            } else {
                *selected - 1
            };
            DangerTabResult::Pending
        },
        KeyCode::Down => {
            *selected = (*selected + 1) % DANGER_ITEM_COUNT;
            DangerTabResult::Pending
        },
        KeyCode::Enter => {
            let (op, _label) = danger_item(*selected);
            DangerTabResult::OpenConfirm(op)
        },
        _ => DangerTabResult::Passthrough,
    }
}

// ---------------------------------------------------------------------
// Confirmation of operations 1-6
// ---------------------------------------------------------------------

/// What a key press in the confirmation dialog decides.
#[derive(Debug, Clone, Copy, PartialEq, Eq, Structural)]
pub enum DangerConfirmResult {
    Pending,
    Cancel,
    Confirm,
}

/// Left and Right toggle between Cancel (0) and Confirm (1); Enter chooses the
/// selected button; Esc cancels.
pub fn handle_danger_confirm_key(key: KeyEvent, selected: &mut usize) -> (r: DangerConfirmResult)
    requires
        (key.code == KeyCode::Left || key.code == KeyCode::Right) ==> *old(selected) <= 1,
    ensures
        match key.code {
            KeyCode::Left | KeyCode::Right => r == DangerConfirmResult::Pending && *final(selected)
                == 1 - *old(selected),
            KeyCode::Enter => *final(selected) == *old(selected) && r == (if *old(selected) == 1 {
                DangerConfirmResult::Confirm
            } else {
                DangerConfirmResult::Cancel
            }),
            KeyCode::Esc => r == DangerConfirmResult::Cancel && *final(selected) == *old(selected),
            _ => r == DangerConfirmResult::Pending && *final(selected) == *old(selected),
        },
{
    match key.code {
        KeyCode::Left | KeyCode::Right => {
            *selected = 1 - *selected;
            DangerConfirmResult::Pending
        },
        KeyCode::Enter => {
            if *selected == 1 {
                DangerConfirmResult::Confirm
            } else {
                DangerConfirmResult::Cancel
            }
        },
        KeyCode::Esc => DangerConfirmResult::Cancel,
        _ => DangerConfirmResult::Pending,
    }
}


// ---------------------------------------------------------------------
// Typed confirmation of "Destroy All Data"
// ---------------------------------------------------------------------

/// The characters a confirmation challenge is drawn from.
pub open spec fn is_challenge_char(c: char) -> bool {
    ('A' <= c && c <= 'Z') || ('0' <= c && c <= '9')
}

/// `rand::random_range(0..n)`: a random index below `n`. Claimed: only that it is
/// below `n`; which one comes out is chance. The range must not be empty.
#[verifier::external_body]
fn random_index(n: usize) -> (r: usize)
    requires
        n > 0,
    ensures
        r < n,
{
    rand::random_range(0..n)
}

/// The alphabet a challenge is drawn from: `A` to `Z`, then `0` to `9`.
pub open spec fn challenge_alphabet() -> Seq<char> {
    "ABCDEFGHIJKLMNOPQRSTUVWXYZ0123456789"@
}

/// The challenge spelled by `draws`: the alphabet's character at each index.
pub open spec fn challenge_spec(draws: Seq<usize>) -> Seq<char> {
    Seq::new(draws.len(), |i: int| challenge_alphabet()[draws[i] as int])
}

/// The challenge spelled by eight draws, each an index into the alphabet
/// (see `challenge_spec`).
pub fn challenge_from(draws: &[usize]) -> (s: String)
    requires
        draws@.len() == 8,
        forall|i: int| 0 <= i < 8 ==> #[trigger] draws@[i] < 36,
    ensures
        s@ == challenge_spec(draws@),
        forall|i: int| 0 <= i < 8 ==> is_challenge_char(#[trigger] s@[i]),
{
    let alphabet = chars_of("ABCDEFGHIJKLMNOPQRSTUVWXYZ0123456789");
    proof {
        reveal_strlit("ABCDEFGHIJKLMNOPQRSTUVWXYZ0123456789");
    }
    assert(alphabet@ == challenge_alphabet());
    assert(alphabet@.len() == 36);
    assert(forall|j: int| 0 <= j < 36 ==> is_challenge_char(#[trigger] alphabet@[j]));
    let mut out: Vec<char> = Vec::new();
    let mut k: usize = 0;
    while k < 8
        invariant
            k <= 8,
            draws@.len() == 8,
            forall|i: int| 0 <= i < 8 ==> #[trigger] draws@[i] < 36,
            alphabet@ == challenge_alphabet(),
            alphabet@.len() == 36,
            out@ =~= challenge_spec(draws@).take(k as int),
        decreases 8 - k,
    {
        assert(draws@[k as int] < 36);
        out.push(alphabet[draws[k]]);
        k = k + 1;
    }
    assert(challenge_spec(draws@).take(8) =~= challenge_spec(draws@));
    assert forall|i: int| 0 <= i < 8 implies is_challenge_char(#[trigger] out@[i]) by {
        assert(out@[i] == alphabet@[draws@[i] as int]);
    }
    crate::text::string_of(out.as_slice())
}

/// A random challenge: eight draws below 36 from the random number generator, spelled
/// out by `challenge_from`.
pub fn generate_challenge() -> (s: String)
    ensures
        s@.len() == 8,
        forall|i: int| 0 <= i < 8 ==> is_challenge_char(#[trigger] s@[i]),
        exists|d: Seq<usize>|
            d.len() == 8 && (forall|i: int| 0 <= i < 8 ==> #[trigger] d[i] < 36) && s@
                == challenge_spec(d),
{
    let mut draws: Vec<usize> = Vec::new();
    let mut k: usize = 0;
    while k < 8
        invariant
            k <= 8,
            draws@.len() == k,
            forall|i: int| 0 <= i < k ==> #[trigger] draws@[i] < 36,
        decreases 8 - k,
    {
        let idx = random_index(36);
        draws.push(idx);
        k = k + 1;
    }
    let s = challenge_from(draws.as_slice());
    assert(s@ == challenge_spec(draws@));
    s
}

/// What a key press in the typed confirmation decides.
#[derive(Debug, Clone, Copy, PartialEq, Eq, Structural)]
pub enum DangerTypedResult {
    Pending,
    Cancel,
    Destroy,
}

/// The typed-confirmation dialog. Focus 0 is the input, 1 the Cancel button and 2 the
/// Destroy button, which can take focus only once the input matches the challenge.
#[derive(Debug, Clone)]
pub struct TypedConfirmState {
    pub challenge: String,
    pub input: String,
    /// Cursor in the input, in characters.
    pub cursor_pos: usize,
    pub op: DangerOp,
    /// Where the snapshot taken before destruction is written.
    pub snapshot_path: String,
    pub focus_idx: usize,
}

impl TypedConfirmState {
    /// The cursor stands within the input.
    pub open spec fn well_formed(self) -> bool {
        self.cursor_pos <= self.input@.len() && self.input@.len() < usize::MAX
    }
}

/// Input, cursor, focus and decision after `k` in state `s`.
pub open spec fn typed_confirm_next(s: TypedConfirmState, k: KeyEvent) -> (
    Seq<char>,
    usize,
    usize,
    DangerTypedResult,
) {
    let input = s.input@;
    let cur = s.cursor_pos;
    let f = s.focus_idx;
    let matched = s.input@ == s.challenge@;
    let pending = DangerTypedResult::Pending;
    match k.code {
        KeyCode::Esc => (input, cur, f, DangerTypedResult::Cancel),
        KeyCode::Tab => (
            input,
            cur,
            if f == 0 {
                1
            } else if f == 1 && matched {
                2
            } else {
                0
            },
            pending,
        ),
        KeyCode::BackTab => (
            input,
            cur,
            if f == 0 && matched {
                2
            } else if f == 0 {
                1
            } else if f == 1 {
                0
            } else {
                1
            },
            pending,
        ),
        KeyCode::Enter => (
            input,
            cur,
            f,
            if f == 1 {
                DangerTypedResult::Cancel
            } else if f == 2 && matched {
                DangerTypedResult::Destroy
            } else {
                pending
            },
        ),
        KeyCode::Backspace => if f == 0 && cur > 0 {
            (input.remove(cur - 1), (cur - 1) as usize, f, pending)
        } else {
            (input, cur, f, pending)
        },
        KeyCode::Delete => if f == 0 && cur < input.len() {
            (input.remove(cur as int), cur, f, pending)
        } else {
            (input, cur, f, pending)
        },
        KeyCode::Left => if f == 0 && cur > 0 {
            (input, (cur - 1) as usize, f, pending)
        } else {
            (input, cur, f, pending)
        },
        KeyCode::Right => if f == 0 && cur < input.len() {
            (input, (cur + 1) as usize, f, pending)
        } else {
            (input, cur, f, pending)
        },
        KeyCode::Home => if f == 0 {
            (input, 0usize, f, pending)
        } else {
            (input, cur, f, pending)
        },
        KeyCode::End => if f == 0 {
            (input, input.len() as usize, f, pending)
        } else {
            (input, cur, f, pending)
        },
        KeyCode::Char(c) => if f == 0 {
            (input.insert(cur as int, c), (cur + 1) as usize, f, pending)
        } else {
            (input, cur, f, pending)
        },
        _ => (input, cur, f, pending),
    }
}

/// Handles a key in the typed confirmation: Esc cancels, Tab and Shift-Tab move the
/// focus, Enter activates the focused button, and the editing keys edit the input
/// when it has focus.
pub fn handle_danger_typed_key(key: KeyEvent, state: &mut TypedConfirmState) -> (r:
    DangerTypedResult)
    requires
        old(state).well_formed(),
    ensures
        final(state).well_formed() || final(state).input@.len() == usize::MAX,
        (final(state).input@, final(state).cursor_pos, final(state).focus_idx, r)
            == typed_confirm_next(*old(state), key),
        final(state).challenge == old(state).challenge,
        final(state).op == old(state).op,
        final(state).snapshot_path == old(state).snapshot_path,
{
    let matches = state.input == state.challenge;
    match key.code {
        KeyCode::Esc => DangerTypedResult::Cancel,
        KeyCode::Tab => {
            state.focus_idx = if state.focus_idx == 0 {
                1
            } else if state.focus_idx == 1 && matches {
                2
            } else {
                0
            };
            DangerTypedResult::Pending
        },
        KeyCode::BackTab => {
            state.focus_idx = if state.focus_idx == 0 && matches {
                2
            } else if state.focus_idx == 0 {
                1
            } else if state.focus_idx == 1 {
                0
            } else {
                1
            };
            DangerTypedResult::Pending
        },
        KeyCode::Enter => {
            if state.focus_idx == 1 {
                DangerTypedResult::Cancel
            } else if state.focus_idx == 2 && matches {
                DangerTypedResult::Destroy
            } else {
                DangerTypedResult::Pending
            }
        },
        KeyCode::Backspace => {
            if state.focus_idx == 0 && state.cursor_pos > 0 {
                state.cursor_pos = state.cursor_pos - 1;
                remove_char_at(&mut state.input, state.cursor_pos);
            }
            DangerTypedResult::Pending
        },
        KeyCode::Delete => {
            if state.focus_idx == 0 {
                let n = char_count(state.input.as_str());
                if state.cursor_pos < n {
                    remove_char_at(&mut state.input, state.cursor_pos);
                }
            }
            DangerTypedResult::Pending
        },
        KeyCode::Left => {
            if state.focus_idx == 0 && state.cursor_pos > 0 {
                state.cursor_pos = state.cursor_pos - 1;
            }
            DangerTypedResult::Pending
        },
        KeyCode::Right => {
            if state.focus_idx == 0 {
                let n = char_count(state.input.as_str());
                if state.cursor_pos < n {
                    state.cursor_pos = state.cursor_pos + 1;
                }
            }
            DangerTypedResult::Pending
        },
        KeyCode::Home => {
            if state.focus_idx == 0 {
                state.cursor_pos = 0;
            }
            DangerTypedResult::Pending
        },
        KeyCode::End => {
            if state.focus_idx == 0 {
                state.cursor_pos = char_count(state.input.as_str());
            }
            DangerTypedResult::Pending
        },
        KeyCode::Char(c) => {
            if state.focus_idx == 0 {
                insert_char_at(&mut state.input, state.cursor_pos, c);
                state.cursor_pos = state.cursor_pos + 1;
            }
            DangerTypedResult::Pending
        },
        _ => DangerTypedResult::Pending,
    }
}


/// The Destroy button acts only when the input matches the challenge, and focus moves
/// onto it only then.
pub proof fn law_destroy_needs_typed_challenge(s: TypedConfirmState, k: KeyEvent)
    ensures
        typed_confirm_next(s, k).3 == DangerTypedResult::Destroy ==> s.input@ == s.challenge@,
        (typed_confirm_next(s, k).2 == 2 && s.focus_idx != 2) ==> s.input@ == s.challenge@,
{
}

// ---------------------------------------------------------------------
// Template mismatch prompt
// ---------------------------------------------------------------------

/// What a key press in the template-mismatch prompt decides.
#[derive(Debug, Clone, Copy, PartialEq, Eq, Structural)]
pub enum TemplatePromptResult {
    Pending,
    Switch,
    Dismiss,
}

/// The prompt offering to switch to an instruct preset that matches the server's
/// chat template better.
#[derive(Debug, Clone)]
pub struct TemplatePromptState {
    /// Name of the suggested instruct preset.
    pub suggested_preset: String,
    pub is_best_guess: bool,
    pub server_template_hash: String,
    /// 0 for "Switch", 1 for "Keep current".
    pub button_selected: usize,
    pub expanded: bool,
}

/// Left and Right toggle the button, Tab shows or hides the details, Enter chooses
/// the selected button and Esc dismisses.
pub fn handle_template_prompt_key(key: KeyEvent, state: &mut TemplatePromptState) -> (r:
    TemplatePromptResult)
    requires
        (key.code == KeyCode::Left || key.code == KeyCode::Right) ==> old(state).button_selected
            <= 1,
    ensures
        final(state).suggested_preset == old(state).suggested_preset,
        final(state).is_best_guess == old(state).is_best_guess,
        final(state).server_template_hash == old(state).server_template_hash,
        match key.code {
            KeyCode::Left | KeyCode::Right => r == TemplatePromptResult::Pending
                && final(state).button_selected == 1 - old(state).button_selected
                && final(state).expanded == old(state).expanded,
            KeyCode::Tab => r == TemplatePromptResult::Pending && final(state).expanded
                == !old(state).expanded && final(state).button_selected
                == old(state).button_selected,
            KeyCode::Enter => r == (if old(state).button_selected == 0 {
                TemplatePromptResult::Switch
            } else {
                TemplatePromptResult::Dismiss
            }) && final(state).button_selected == old(state).button_selected
                && final(state).expanded == old(state).expanded,
            KeyCode::Esc => r == TemplatePromptResult::Dismiss && final(state).button_selected
                == old(state).button_selected && final(state).expanded == old(state).expanded,
            _ => r == TemplatePromptResult::Pending && final(state).button_selected
                == old(state).button_selected && final(state).expanded == old(state).expanded,
        },
{
    match key.code {
        KeyCode::Left | KeyCode::Right => {
            state.button_selected = 1 - state.button_selected;
            TemplatePromptResult::Pending
        },
        KeyCode::Tab => {
            state.expanded = !state.expanded;
            TemplatePromptResult::Pending
        },
        KeyCode::Enter => {
            if state.button_selected == 0 {
                TemplatePromptResult::Switch
            } else {
                TemplatePromptResult::Dismiss
            }
        },
        KeyCode::Esc => TemplatePromptResult::Dismiss,
        _ => TemplatePromptResult::Pending,
    }
}

// ---------------------------------------------------------------------
// Unsaved-changes warning
// ---------------------------------------------------------------------

/// The buttons of the unsaved-changes warning, left to right.
#[derive(Debug, Clone, Copy, PartialEq, Eq, Structural)]
pub enum UnsavedButton {
    SaveAndClose,
    Discard,
    Cancel,
}

/// What a key press in the unsaved-changes warning decides.
#[derive(Debug, Clone, Copy, PartialEq, Eq, Structural)]
pub enum UnsavedOutcome {
    Pending,
    Chosen(UnsavedButton),
}

/// The button to the right of `b`, wrapping around.
pub open spec fn unsaved_next(b: UnsavedButton) -> UnsavedButton {
    match b {
        UnsavedButton::SaveAndClose => UnsavedButton::Discard,
        UnsavedButton::Discard => UnsavedButton::Cancel,
        UnsavedButton::Cancel => UnsavedButton::SaveAndClose,
    }
}

/// The button to the left of `b`, wrapping around.
pub open spec fn unsaved_prev(b: UnsavedButton) -> UnsavedButton {
    match b {
        UnsavedButton::SaveAndClose => UnsavedButton::Cancel,
        UnsavedButton::Discard => UnsavedButton::SaveAndClose,
        UnsavedButton::Cancel => UnsavedButton::Discard,
    }
}

/// The unsaved-changes warning: which button has focus.
#[derive(Debug, Clone, Copy, PartialEq, Eq, Structural)]
pub struct UnsavedWarningState {
    pub focused: UnsavedButton,
}

impl UnsavedWarningState {
    /// A warning with "Save & Close" focused.
    pub fn new() -> (s: Self)
        ensures
            s.focused == UnsavedButton::SaveAndClose,
    {
        UnsavedWarningState { focused: UnsavedButton::SaveAndClose }
    }
}

/// Left and Right move the focus with wrap-around, Enter chooses the focused button and
/// Esc chooses Cancel.
pub fn handle_unsaved_key(state: &mut UnsavedWarningState, key: KeyEvent) -> (r: UnsavedOutcome)
    ensures
        match key.code {
            KeyCode::Left => r == UnsavedOutcome::Pending && final(state).focused == unsaved_prev(
                old(state).focused,
            ),
            KeyCode::Right => r == UnsavedOutcome::Pending && final(state).focused == unsaved_next(
                old(state).focused,
            ),
            KeyCode::Enter => r == UnsavedOutcome::Chosen(old(state).focused) && *final(state)
                == *old(state),
            KeyCode::Esc => r == UnsavedOutcome::Chosen(UnsavedButton::Cancel) && *final(state)
                == *old(state),
            _ => r == UnsavedOutcome::Pending && *final(state) == *old(state),
        },
{
    match key.code {
        KeyCode::Left => {
            state.focused = match state.focused {
                UnsavedButton::SaveAndClose => UnsavedButton::Cancel,
                UnsavedButton::Discard => UnsavedButton::SaveAndClose,
                UnsavedButton::Cancel => UnsavedButton::Discard,
            };
            UnsavedOutcome::Pending
        },
        KeyCode::Right => {
            state.focused = match state.focused {
                UnsavedButton::SaveAndClose => UnsavedButton::Discard,
                UnsavedButton::Discard => UnsavedButton::Cancel,
                UnsavedButton::Cancel => UnsavedButton::SaveAndClose,
            };
            UnsavedOutcome::Pending
        },
        KeyCode::Enter => UnsavedOutcome::Chosen(state.focused),
        KeyCode::Esc => UnsavedOutcome::Chosen(UnsavedButton::Cancel),
        _ => UnsavedOutcome::Pending,
    }
}

/// Left undoes Right: moving the focus right and then left returns to the same button.
pub proof fn law_unsaved_left_undoes_right(b: UnsavedButton)
    ensures
        unsaved_prev(unsaved_next(b)) == b,
        unsaved_next(unsaved_prev(b)) == b,
        unsaved_next(unsaved_next(unsaved_next(b))) == b,
{
}

// ---------------------------------------------------------------------
// Injection warning
// ---------------------------------------------------------------------

/// Which reserved attachment delimiter a file contained.
#[derive(Debug, Clone, Copy, PartialEq, Eq, Structural)]
pub enum DelimiterKind {
    Start,
    End,
}

/// The warning shown when an attached file holds the attachment delimiter for its own
/// name on a line of its own: the file's name and the delimiter that collided.
#[derive(Debug, Clone)]
pub struct InjectionWarning {
    pub basename: String,
    pub delimiter: &'static str,
}

/// How the warning names a delimiter.
pub open spec fn delimiter_text(kind: DelimiterKind) -> Seq<char> {
    match kind {
        DelimiterKind::Start => "<<<FILE ...>>>"@,
        DelimiterKind::End => "<<<END ...>>>"@,
    }
}

impl InjectionWarning {
    /// The warning for a file named `basename` and the delimiter it contained.
    pub fn new(basename: String, kind: DelimiterKind) -> (w: Self)
        ensures
            w.basename == basename,
            w.delimiter@ == delimiter_text(kind),
    {
        let delimiter = match kind {
            DelimiterKind::Start => "<<<FILE ...>>>",
            DelimiterKind::End => "<<<END ...>>>",
        };
        InjectionWarning { basename, delimiter }
    }
}

/// Whether a key dismisses the injection warning: Enter, Esc or Space.
pub fn injection_warning_dismisses(key: KeyEvent) -> (b: bool)
    ensures
        b == (key.code == KeyCode::Enter || key.code == KeyCode::Esc || key.code == KeyCode::Char(
            ' ',
        )),
{
    match key.code {
        KeyCode::Enter | KeyCode::Esc => true,
        KeyCode::Char(c) => c == ' ',
        _ => false,
    }
}


// ---------------------------------------------------------------------
// Reporting a finished operation
// ---------------------------------------------------------------------

/// What a finished Danger-tab operation reports.
#[derive(Debug, Clone, Copy, PartialEq, Eq, Structural)]
pub enum DangerSummary {
    /// Rows removed from the database.
    RowsAffected(u64),
    /// Presets rewritten, and how many could not be.
    PresetsWritten { written: u64, failed: u64 },
}

/// The status line after `op` finished with `summary`.
pub open spec fn danger_summary_text(op: DangerOp, summary: DangerSummary) -> Seq<char> {
    match (op, summary) {
        (DangerOp::ClearStores, DangerSummary::RowsAffected(n)) =>
            "Cleared "@ + decimal(n as nat) + " dismissed prompt(s)"@,
        (DangerOp::RegeneratePresets, DangerSummary::PresetsWritten { written, failed }) =>
            if failed == 0 {
                "Regenerated "@ + decimal(written as nat) + " preset(s)"@
            } else {
                "Regenerated "@ + decimal(written as nat) + " preset(s); "@ + decimal(failed as nat)
                    + " failed"@
            },
        (DangerOp::PurgeChats, DangerSummary::RowsAffected(n)) =>
            "Purged "@ + decimal(n as nat) + " chat(s) — restart to reflect changes"@,
        (DangerOp::PurgeCharacters, DangerSummary::RowsAffected(n)) =>
            "Purged "@ + decimal(n as nat) + " character(s)"@,
        (DangerOp::PurgePersonas, DangerSummary::RowsAffected(n)) =>
            "Purged "@ + decimal(n as nat) + " persona(s)"@,
        (DangerOp::PurgeWorldbooks, DangerSummary::RowsAffected(n)) =>
            "Purged "@ + decimal(n as nat) + " worldbook(s)"@,
        _ => "Operation complete"@,
    }
}

fn counted(before: &str, n: u64, after: &str) -> (r: Vec<char>)
    ensures
        r@ == before@ + decimal(n as nat) + after@,
{
    let mut v: Vec<char> = Vec::new();
    push_str(&mut v, before);
    push_decimal(&mut v, n);
    push_str(&mut v, after);
    v
}

/// The status line after `op` finished with `summary`.
pub fn danger_summary_message(op: DangerOp, summary: DangerSummary) -> (r: String)
    ensures
        r@ == danger_summary_text(op, summary),
{
    let v = match (op, summary) {
        (DangerOp::ClearStores, DangerSummary::RowsAffected(n)) =>
            counted("Cleared ", n, " dismissed prompt(s)"),
        (DangerOp::RegeneratePresets, DangerSummary::PresetsWritten { written, failed }) => {
            if failed == 0 {
                counted("Regenerated ", written, " preset(s)")
            } else {
                let mut v = counted("Regenerated ", written, " preset(s); ");
                push_decimal(&mut v, failed);
                push_str(&mut v, " failed");
                v
            }
        },
        (DangerOp::PurgeChats, DangerSummary::RowsAffected(n)) =>
            counted("Purged ", n, " chat(s) — restart to reflect changes"),
        (DangerOp::PurgeCharacters, DangerSummary::RowsAffected(n)) =>
            counted("Purged ", n, " character(s)"),
        (DangerOp::PurgePersonas, DangerSummary::RowsAffected(n)) =>
            counted("Purged ", n, " persona(s)"),
        (DangerOp::PurgeWorldbooks, DangerSummary::RowsAffected(n)) =>
            counted("Purged ", n, " worldbook(s)"),
        _ => {
            let mut v: Vec<char> = Vec::new();
            push_str(&mut v, "Operation complete");
            v
        },
    };
    string_of(v.as_slice())
}

} // verus!
