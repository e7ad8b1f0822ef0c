//! Small rules shared by the list dialogs: moving the selection, and the names under
//! which imported files are stored.

use vstd::prelude::*;
use crate::text::{chars_of, string_of, trim, trim_chars, push_str, push_decimal, decimal, string_views};
use crate::theme::{lowercase, to_lowercase_string};
use crate::worldbook::lists_name;

verus! {

/// Longest name, in characters, that an import may get.
pub const MAX_NAME_LENGTH: usize = 32;

/// Moves the selection up one row, stopping at the first.
pub fn move_selection_up(selected: &mut usize)
    ensures
        *final(selected) == (if *old(selected) > 0 { *old(selected) - 1 } else { 0 }),
{
    if *selected > 0 {
        *selected = *selected - 1;
    }
}

/// Moves the selection down one row, stopping at the last; an empty list leaves it
/// alone.
pub fn move_selection_down(selected: &mut usize, list_len: usize)
    requires
        *old(selected) < usize::MAX,
    ensures
        *final(selected) == (if list_len == 0 {
            *old(selected) as int
        } else if *old(selected) + 1 <= list_len - 1 {
            *old(selected) + 1
        } else {
            list_len - 1
        }),
{
    if list_len > 0 {
        let next = *selected + 1;
        *selected = if next <= list_len - 1 { next } else { list_len - 1 };
    }
}

/// `char::is_alphanumeric`: alphabetic or numeric in Unicode.
pub uninterp spec fn alphanumeric(c: char) -> bool;

/// `char::is_alphanumeric`.
#[verifier::external_body]
fn is_alphanumeric(c: char) -> (b: bool)
    ensures
        b == alphanumeric(c),
{
    c.is_alphanumeric()
}

/// A character an imported name keeps: letters, digits, `-`, `_` and spaces.
pub open spec fn name_char(c: char) -> bool {
    alphanumeric(c) || c == '-' || c == '_' || c == ' '
}

/// The characters of `s` that a name keeps, in order.
pub open spec fn name_chars(s: Seq<char>) -> Seq<char>
    decreases s.len(),
{
    if s.len() == 0 {
        Seq::empty()
    } else {
        name_chars(s.drop_last()) + if name_char(s.last()) { seq![s.last()] } else { Seq::empty() }
    }
}

/// The name an imported file gets from `raw`: the characters a name keeps, trimmed;
/// `None` when nothing is left or it is longer than `MAX_NAME_LENGTH` characters.
pub fn sanitize_import_name(raw: &str) -> (r: Option<String>)
    ensures
        ({
            let t = trim(name_chars(raw@));
            if t.len() == 0 || t.len() > MAX_NAME_LENGTH {
                r is None
            } else {
                r matches Some(s) && s@ == t
            }
        }),
{
    let v = chars_of(raw);
    let mut kept: Vec<char> = Vec::new();
    let mut i: usize = 0;
    while i < v.len()
        invariant
            i <= v.len(),
            kept@ == name_chars(v@.take(i as int)),
        decreases v.len() - i,
    {
        let c = v[i];
        if is_alphanumeric(c) || c == '-' || c == '_' || c == ' ' {
            kept.push(c);
        }
        assert(v@.take(i + 1).drop_last() =~= v@.take(i as int));
        i = i + 1;
    }
    assert(v@.take(i as int) =~= v@);
    let t = trim_chars(kept.as_slice());
    if t.len() == 0 || t.len() > MAX_NAME_LENGTH {
        return None;
    }
    Some(string_of(t.as_slice()))
}


/// The names in `existing`, each lowercased.
pub open spec fn lowered_names(existing: Seq<String>) -> Seq<Seq<char>> {
    string_views(existing).map_values(|n: Seq<char>| lowercase(n))
}

/// Whether `candidate` clashes, without regard to case, with a name in `existing`.
pub open spec fn name_taken(existing: Seq<String>, candidate: Seq<char>) -> bool {
    lowered_names(existing).contains(lowercase(candidate))
}

/// `base`, a hyphen, and the number `i`.
pub open spec fn numbered_name(base: Seq<char>, i: nat) -> Seq<char> {
    base + seq!['-'] + decimal(i)
}

/// A name for a new item that clashes with none in `existing`, without regard to case:
/// `base` itself when it is free, else `base-1`, `base-2`, ... the first that is free.
/// The numbers run up to `u32::MAX`; `None` when every one of them is taken.
pub fn generate_unique_name(base: &str, existing: &Vec<String>) -> (r: Option<String>)
    ensures
        match r {
            Some(n) => if !name_taken(existing@, base@) {
                n@ == base@
            } else {
                exists|i: nat|
                    1 <= i <= u32::MAX && n@ == #[trigger] numbered_name(base@, i) && !name_taken(
                        existing@,
                        n@,
                    ) && forall|k: nat|
                        1 <= k < i ==> name_taken(existing@, #[trigger] numbered_name(base@, k))
            },
            None => name_taken(existing@, base@) && forall|k: nat|
                1 <= k <= u32::MAX ==> name_taken(existing@, #[trigger] numbered_name(base@, k)),
        },
{
    let mut lowered: Vec<String> = Vec::new();
    let mut j: usize = 0;
    while j < existing.len()
        invariant
            j <= existing@.len(),
            lowered@.len() == j,
            forall|k: int| 0 <= k < j ==> (#[trigger] lowered@[k])@ == lowercase(existing@[k]@),
        decreases existing.len() - j,
    {
        let l = to_lowercase_string(existing[j].as_str());
        lowered.push(l);
        j = j + 1;
    }
    assert(string_views(lowered@) =~= lowered_names(existing@));
    let lower_base = to_lowercase_string(base);
    if !lists_name(&lowered, lower_base.as_str()) {
        return Some(String::from_str(base));
    }
    let mut i: u32 = 1;
    loop
        invariant
            1 <= i,
            string_views(lowered@) == lowered_names(existing@),
            name_taken(existing@, base@),
            forall|k: nat| 1 <= k < i ==> name_taken(existing@, #[trigger] numbered_name(base@, k)),
        decreases u32::MAX - i,
    {
        let mut v: Vec<char> = Vec::new();
        push_str(&mut v, base);
        v.push('-');
        push_decimal(&mut v, i as u64);
        assert(v@ =~= numbered_name(base@, i as nat));
        let candidate = string_of(v.as_slice());
        let lower = to_lowercase_string(candidate.as_str());
        if !lists_name(&lowered, lower.as_str()) {
            return Some(candidate);
        }
        assert(name_taken(existing@, numbered_name(base@, i as nat)));
        if i == u32::MAX {
            assert forall|k: nat| 1 <= k <= u32::MAX implies name_taken(
                existing@,
                #[trigger] numbered_name(base@, k),
            ) by {
                if k < i {
                } else {
                    assert(k == i);
                }
            }
            return None;
        }
        i = i + 1;
    }
}

} // verus!
