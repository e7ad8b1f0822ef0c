//! Shared paging logic for list-selection dialogs.

use vstd::prelude::*;

verus! {

/// The window `[start, end)` of a list of `total` items, `visible` rows high, that
/// keeps item `selected` (clamped to the list) in view.
pub open spec fn viewport_spec(total: nat, selected: nat, visible: nat) -> (nat, nat) {
    if total == 0 {
        (0, 0)
    } else {
        let clamped: nat = if selected < total {
            selected
        } else {
            (total - 1) as nat
        };
        if visible == 0 {
            (clamped, clamped + 1)
        } else if total <= visible {
            (0, total)
        } else {
            let back: int = clamped - (visible - 1);
            let s0: nat = if back > 0 {
                back as nat
            } else {
                0
            };
            let start: nat = if s0 < total - visible {
                s0
            } else {
                (total - visible) as nat
            };
            (start, start + visible)
        }
    }
}

pub fn viewport(total: usize, selected: usize, visible: usize) -> (r: std::ops::Range<usize>)
    ensures
        (r.start as nat, r.end as nat) == viewport_spec(total as nat, selected as nat, visible as nat),
        r.start <= r.end <= total,
        total > 0 ==> r.start <= (if selected < total {
            selected
        } else {
            (total - 1) as usize
        }) < r.end,
        total > 0 && visible > 0 ==> r.end - r.start == (if total <= visible {
            total
        } else {
            visible
        }),
{
    if total == 0 {
        return 0..0;
    }
    let clamped = if selected < total - 1 {
        selected
    } else {
        total - 1
    };
    if visible == 0 {
        return clamped..clamped + 1;
    }
    if total <= visible {
        return 0..total;
    }
    let start = if clamped > visible - 1 {
        clamped - (visible - 1)
    } else {
        0
    };
    let start = if start < total - visible {
        start
    } else {
        total - visible
    };
    start..start + visible
}

} // verus!
