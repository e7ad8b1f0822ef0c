//! The short highlight shown when a keystroke is refused, and its expiry on each tick.

use vstd::prelude::*;
use crate::clock::{duration_as_millis, instant_elapsed};

verus! {

/// How long a refusal highlight stays on screen, in milliseconds.
pub const REJECT_FLASH_MILLIS: u64 = 150;

/// Whether a highlight that started `elapsed_ms` milliseconds ago still shows: it
/// shows for less than `REJECT_FLASH_MILLIS`.
pub fn flash_active_for(elapsed_ms: u128) -> (b: bool)
    ensures
        b == (elapsed_ms < REJECT_FLASH_MILLIS),
{
    elapsed_ms < REJECT_FLASH_MILLIS as u128
}

/// Milliseconds since `t`, by the clock.
fn millis_since(t: std::time::Instant) -> u128 {
    duration_as_millis(instant_elapsed(t))
}

/// Whether a highlight started at `flash` is still showing, `elapsed_ms` milliseconds
/// after it started (when there is one).
pub fn flash_active_after(flash: Option<std::time::Instant>, elapsed_ms: u128) -> (b: bool)
    ensures
        b == (flash is Some && elapsed_ms < REJECT_FLASH_MILLIS),
{
    match flash {
        Some(_) => flash_active_for(elapsed_ms),
        None => false,
    }
}

/// Whether a highlight started at `flash` is still showing now. No highlight is never
/// showing; for one that started, the clock's reading of the time since then is
/// handed to `flash_active_for`, which decides.
pub fn is_flash_active(flash: Option<std::time::Instant>) -> (b: bool)
    ensures
        flash.is_none() ==> !b,
{
    match flash {
        Some(t) => flash_active_for(millis_since(t)),
        None => false,
    }
}

/// One tick of one highlight, `elapsed_ms` milliseconds after it started: a
/// highlight that has run its time is cleared, one still within it is kept. Returns
/// whether the screen needs redrawing, which is whenever there was a highlight.
pub fn settle_flash_after(slot: &mut Option<std::time::Instant>, elapsed_ms: u128) -> (redraw: bool)
    ensures
        redraw == old(slot).is_some(),
        *final(slot) == (if old(slot).is_some() && elapsed_ms >= REJECT_FLASH_MILLIS {
            None
        } else {
            *old(slot)
        }),
{
    match *slot {
        Some(_) => {
            if !flash_active_for(elapsed_ms) {
                *slot = None;
            }
            true
        },
        None => false,
    }
}

/// One tick of one highlight, by the clock (see `settle_flash_after`).
pub fn settle_flash(slot: &mut Option<std::time::Instant>) -> (redraw: bool)
    ensures
        redraw == old(slot).is_some(),
        *final(slot) == *old(slot) || final(slot).is_none(),
{
    match *slot {
        Some(t) => {
            let ms = millis_since(t);
            settle_flash_after(slot, ms)
        },
        None => false,
    }
}

/// One tick of every highlight on screen (the input line's and those of the open
/// dialogs), the highlight in `slots[i]` having started `elapsed_ms[i]` milliseconds
/// ago: those that have run their time are cleared, the others kept. Returns whether
/// anything needs redrawing.
pub fn tick_reject_flashes_after(slots: &mut Vec<Option<std::time::Instant>>, elapsed_ms: &Vec<u128>) -> (redraw: bool)
    requires
        elapsed_ms@.len() == old(slots)@.len(),
    ensures
        final(slots)@.len() == old(slots)@.len(),
        redraw == exists|i: int| 0 <= i < old(slots)@.len() && (#[trigger] old(slots)@[i]).is_some(),
        forall|i: int|
            0 <= i < old(slots)@.len() ==> #[trigger] final(slots)@[i] == (if old(slots)@[i].is_some()
                && elapsed_ms@[i] >= REJECT_FLASH_MILLIS {
                None
            } else {
                old(slots)@[i]
            }),
{
    let mut redraw = false;
    let mut i: usize = 0;
    while i < slots.len()
        invariant
            i <= slots@.len(),
            slots@.len() == old(slots)@.len(),
            elapsed_ms@.len() == old(slots)@.len(),
            redraw == exists|k: int| 0 <= k < i && (#[trigger] old(slots)@[k]).is_some(),
            forall|k: int| i <= k < slots@.len() ==> #[trigger] slots@[k] == old(slots)@[k],
            forall|k: int|
                0 <= k < i ==> #[trigger] slots@[k] == (if old(slots)@[k].is_some()
                    && elapsed_ms@[k] >= REJECT_FLASH_MILLIS {
                    None
                } else {
                    old(slots)@[k]
                }),
        decreases slots.len() - i,
    {
        let mut slot = slots[i];
        let r = settle_flash_after(&mut slot, elapsed_ms[i]);
        slots.set(i, slot);
        if r {
            redraw = true;
        }
        assert(old(slots)@[i as int].is_some() == r);
        i = i + 1;
    }
    redraw
}

/// One tick of every highlight on screen, by the clock (see
/// `tick_reject_flashes_after`). Returns whether anything needs redrawing.
pub fn tick_reject_flashes(slots: &mut Vec<Option<std::time::Instant>>) -> (redraw: bool)
    ensures
        final(slots)@.len() == old(slots)@.len(),
        redraw == exists|i: int| 0 <= i < old(slots)@.len() && (#[trigger] old(slots)@[i]).is_some(),
        forall|i: int|
            0 <= i < old(slots)@.len() ==> (#[trigger] final(slots)@[i] == old(slots)@[i]
                || final(slots)@[i].is_none()),
{
    let mut elapsed: Vec<u128> = Vec::new();
    let mut i: usize = 0;
    while i < slots.len()
        invariant
            i <= slots@.len(),
            elapsed@.len() == i,
        decreases slots.len() - i,
    {
        let ms = match slots[i] {
            Some(t) => millis_since(t),
            None => 0,
        };
        elapsed.push(ms);
        i = i + 1;
    }
    tick_reject_flashes_after(slots, &elapsed)
}

} // verus!
