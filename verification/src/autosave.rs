//! When the session is saved: a change marks it dirty and, when it can be persisted,
//! schedules a save (at once, or after a quiet spell); a failed save is retried
//! later; a successful one clears the schedule. Times are milliseconds on the
//! caller's clock.

use vstd::prelude::*;
use crate::text::{string_views, trim, trim_chars, chars_of, chars_eq};
use crate::input::{join_input_lines, join_lines};

verus! {

/// What caused a save.
#[derive(Debug, Clone, Copy, PartialEq, Eq, Structural)]
pub enum SaveTrigger {
    Debounced,
    StreamDone,
    Transition,
    Exit,
    Retry,
}

/// The save schedule.
#[derive(Debug, Clone, Copy, PartialEq, Eq, Structural)]
pub struct Autosave {
    /// The session has changes not yet saved.
    pub dirty: bool,
    /// What the next save is for.
    pub pending_trigger: Option<SaveTrigger>,
    /// When the next save is due.
    pub deadline: Option<u64>,
    /// When the session first became dirty since it was last saved or discarded.
    pub dirty_since: Option<u64>,
    /// Number of saves that succeeded.
    pub save_count: u64,
    /// Number of saves that failed (each is retried).
    pub retry_count: u64,
}

/// The schedule after a change (see `Autosave::mark_dirty`).
pub open spec fn marked(a: Autosave, trigger: SaveTrigger, immediate: bool, can_persist: bool, now: u64, debounce: u64) -> Autosave {
    Autosave {
        dirty: true,
        pending_trigger: Some(trigger),
        deadline: if can_persist { Some(if immediate { now } else { (now + debounce) as u64 }) } else { a.deadline },
        dirty_since: match a.dirty_since { Some(t) => Some(t), None => Some(now) },
        save_count: a.save_count,
        retry_count: a.retry_count,
    }
}

/// The schedule after a save (see `Autosave::save_finished`).
pub open spec fn finished(a: Autosave, ok: bool, now: u64, retry_delay: u64) -> Autosave {
    if ok {
        Autosave {
            dirty: false,
            pending_trigger: None,
            deadline: None,
            dirty_since: None,
            save_count: (a.save_count + 1) as u64,
            retry_count: a.retry_count,
        }
    } else {
        Autosave {
            dirty: a.dirty,
            pending_trigger: Some(SaveTrigger::Retry),
            deadline: Some((now + retry_delay) as u64),
            dirty_since: a.dirty_since,
            save_count: a.save_count,
            retry_count: (a.retry_count + 1) as u64,
        }
    }
}

/// The save due at `now` (see `Autosave::due`).
pub open spec fn due_at(a: Autosave, now: u64) -> Option<SaveTrigger> {
    match a.deadline {
        Some(d) => if now >= d {
            Some(match a.pending_trigger { Some(t) => t, None => SaveTrigger::Retry })
        } else {
            None
        },
        None => None,
    }
}

impl Autosave {
    /// Nothing to save.
    pub fn new() -> (a: Self)
        ensures
            !a.dirty && a.pending_trigger is None && a.deadline is None && a.dirty_since is None,
            a.save_count == 0 && a.retry_count == 0,
    {
        Autosave { dirty: false, pending_trigger: None, deadline: None, dirty_since: None, save_count: 0, retry_count: 0 }
    }

    /// Records a change: the session is dirty (since `now`, unless it already was);
    /// when it `can_persist`, a save is due at `now` (`immediate`) or `now + debounce`.
    pub fn mark_dirty(&mut self, trigger: SaveTrigger, immediate: bool, can_persist: bool, now: u64, debounce: u64)
        requires
            now + debounce <= u64::MAX,
        ensures
            *final(self) == marked(*old(self), trigger, immediate, can_persist, now, debounce),
    {
        self.dirty = true;
        self.pending_trigger = Some(trigger);
        if can_persist {
            self.deadline = Some(if immediate { now } else { now + debounce });
        }
        if self.dirty_since.is_none() {
            self.dirty_since = Some(now);
        }
    }

    /// Forgets the changes (the session was replaced); the counts stay.
    pub fn discard(&mut self)
        ensures
            *final(self) == (Autosave {
                dirty: false,
                pending_trigger: None,
                deadline: None,
                dirty_since: None,
                save_count: old(self).save_count,
                retry_count: old(self).retry_count,
            }),
    {
        self.dirty = false;
        self.pending_trigger = None;
        self.deadline = None;
        self.dirty_since = None;
    }

    /// Whether a save at this point writes anything: only changes that can be
    /// persisted are.
    pub fn needs_save(&self, can_persist: bool) -> (b: bool)
        ensures
            b == (self.dirty && can_persist),
    {
        self.dirty && can_persist
    }

    /// Records how a save went: success clears the schedule and counts a save;
    /// failure keeps the changes, retries at `now + retry_delay` and counts a retry.
    pub fn save_finished(&mut self, ok: bool, now: u64, retry_delay: u64)
        requires
            now + retry_delay <= u64::MAX,
            ok ==> old(self).save_count < u64::MAX,
            !ok ==> old(self).retry_count < u64::MAX,
        ensures
            *final(self) == finished(*old(self), ok, now, retry_delay),
    {
        if ok {
            self.discard();
            self.save_count = self.save_count + 1;
        } else {
            self.deadline = Some(now + retry_delay);
            self.pending_trigger = Some(SaveTrigger::Retry);
            self.retry_count = self.retry_count + 1;
        }
    }

    /// The save due at `now`, if any, with its trigger (a retry when none is
    /// recorded).
    pub fn due(&self, now: u64) -> (r: Option<SaveTrigger>)
        ensures
            r == due_at(*self, now),
    {
        match self.deadline {
            Some(d) => {
                if now >= d {
                    Some(match self.pending_trigger {
                        Some(t) => t,
                        None => SaveTrigger::Retry,
                    })
                } else {
                    None
                }
            },
            None => None,
        }
    }
}

/// A persistable change is saved on time: marked at `now`, its save is due at `now`
/// when immediate and at `now + debounce` otherwise (not before), for its trigger.
pub proof fn law_change_is_due_on_time(a: Autosave, trigger: SaveTrigger, immediate: bool, now: u64, debounce: u64)
    requires
        now + debounce <= u64::MAX,
    ensures
        ({
            let b = marked(a, trigger, immediate, true, now, debounce);
            let when = if immediate { now } else { (now + debounce) as u64 };
            &&& due_at(b, when) == Some(trigger)
            &&& forall|t: u64| t < when ==> due_at(b, t) is None
            &&& b.dirty
        }),
{
}

/// The time the session first became dirty is kept through later changes, and
/// forgotten once a save succeeds.
pub proof fn law_first_dirty_time_kept(
    a: Autosave,
    t1: SaveTrigger,
    t2: SaveTrigger,
    immediate: bool,
    can_persist: bool,
    first: u64,
    second: u64,
    debounce: u64,
    retry_delay: u64,
)
    requires
        a.dirty_since is None,
    ensures
        marked(marked(a, t1, immediate, can_persist, first, debounce), t2, immediate, can_persist, second, debounce).dirty_since
            == Some(first),
        finished(marked(a, t1, immediate, can_persist, first, debounce), true, second, retry_delay).dirty_since is None,
{
}

/// A successful save leaves nothing due and nothing to save, and is counted; a
/// failed one keeps the changes, makes a retry due after the delay, and is counted as
/// a retry.
pub proof fn law_save_outcome(a: Autosave, now: u64, retry_delay: u64, later: u64)
    requires
        now + retry_delay <= u64::MAX,
        a.save_count < u64::MAX,
        a.retry_count < u64::MAX,
    ensures
        finished(a, true, now, retry_delay).save_count == a.save_count + 1,
        finished(a, true, now, retry_delay).retry_count == a.retry_count,
        finished(a, false, now, retry_delay).retry_count == a.retry_count + 1,
        finished(a, false, now, retry_delay).save_count == a.save_count,
        due_at(finished(a, true, now, retry_delay), later) is None,
        !finished(a, true, now, retry_delay).dirty,
        finished(a, false, now, retry_delay).dirty == a.dirty,
        later >= now + retry_delay ==> due_at(finished(a, false, now, retry_delay), later) == Some(SaveTrigger::Retry),
        later < now + retry_delay ==> due_at(finished(a, false, now, retry_delay), later) is None,
{
}

/// Whether the input still holds `submitted` (both trimmed): only then is it cleared
/// after sending, so text typed meanwhile survives.
pub fn input_holds(lines: &Vec<String>, submitted: &str) -> (b: bool)
    ensures
        b == (trim(join_lines(string_views(lines@))) == trim(submitted@)),
{
    let joined = join_input_lines(lines.as_slice());
    let a = trim_chars(joined.as_slice());
    let s = chars_of(submitted);
    let t = trim_chars(s.as_slice());
    chars_eq(a.as_slice(), t.as_slice())
}


/// What quitting does once the exit save has run.
#[derive(Debug, Clone, PartialEq, Eq)]
pub enum QuitDecision {
    /// The session is saved (or needed no save): leave.
    Quit,
    /// The save failed: stay, and show this error in the status line.
    Stay(String),
}

/// Quitting after the exit save: leave when it succeeded; otherwise stay and say
/// "Save error: " and why.
pub fn quit_after_exit_save(save: Result<(), String>) -> (r: QuitDecision)
    ensures
        match save {
            Ok(()) => r == QuitDecision::Quit,
            Err(e) => r matches QuitDecision::Stay(m) && m@ == "Save error: "@ + e@,
        },
{
    match save {
        Ok(()) => QuitDecision::Quit,
        Err(e) => QuitDecision::Stay(String::from_str("Save error: ").concat(e.as_str())),
    }
}

} // verus!
