//! User-defined macro expansion with positional argument substitution.
//!
//! A macro template holds placeholders written between double braces:
//! `{{}}` (all arguments, verbatim), `{{n}}` (the n-th argument),
//! `{{a..b}}` / `{{a...b}}` (arguments a to b joined by spaces) and
//! `{{a..}}` / `{{a...}}` (argument a and everything after it). A backslash
//! before `{{` escapes it. Indices start at 1, must cover 1..=max without
//! gaps, must not overlap, and may not exceed `MAX_MACRO_PLACEHOLDER_RANGE`.

use vstd::prelude::*;
use crate::text::{
    chars_of, decimal, ends_with, find, find_chars, has_suffix, join_space, join_words,
    parse_unsigned, parse_usize_chars, push_all, push_decimal, push_str, split_whitespace_chars,
    split_ws, string_of, sub_chars, trim, trim_chars, words_view, is_word, lemma_split_ws_words,
    lemma_split_ws_join, single_spaced, lemma_join_space_spaced,
};

verus! {

pub const MAX_MACRO_PLACEHOLDER_RANGE: usize = 256;

#[derive(Debug, PartialEq, Eq, Structural, Clone, Copy)]
pub enum Placeholder {
    All,
    Single(usize),
    Range(usize, usize),
    Greedy(usize),
}

#[derive(Debug, PartialEq, Eq, Structural, Clone, Copy)]
pub enum ScanItem {
    /// A backslash at the first index that escapes the `{{` after it; the
    /// second index is where copying resumes.
    Escaped(usize, usize),
    /// A placeholder spanning `[start, end)` of the template.
    Placeholder(usize, usize, Placeholder),
}

// ---------------------------------------------------------------------
// Specification: placeholders
// ---------------------------------------------------------------------

pub open spec fn dots3() -> Seq<char> {
    seq!['.', '.', '.']
}

pub open spec fn dots2() -> Seq<char> {
    seq!['.', '.']
}

/// `str::parse::<usize>`.
pub open spec fn parse_index(s: Seq<char>) -> Option<nat> {
    parse_unsigned(s, usize::MAX as nat)
}

pub open spec fn invalid_msg(c: Seq<char>) -> Seq<char> {
    "Invalid placeholder: {{"@ + c + "}}"@
}

pub open spec fn start_at_one_msg() -> Seq<char> {
    "Placeholder indices start at 1"@
}

/// The placeholder `{{a..}}` / `{{a...}}`, where the trailing dots are `w` long.
pub open spec fn greedy_spec(c: Seq<char>, w: nat) -> Result<Placeholder, Seq<char>> {
    let rest = c.subrange(0, c.len() - w);
    if rest.len() == 0 {
        if w == 3 {
            Err("Invalid placeholder: {{...}}"@)
        } else {
            Err("Invalid placeholder: {{..}}"@)
        }
    } else {
        match parse_index(rest) {
            None => Err(invalid_msg(c)),
            Some(n) => if n == 0 {
                Err(start_at_one_msg())
            } else {
                Ok(Placeholder::Greedy(n as usize))
            },
        }
    }
}

/// The placeholder `{{a..b}}` / `{{a...b}}` whose separator `sep` starts at `p`.
pub open spec fn range_spec(c: Seq<char>, p: int, sep: Seq<char>) -> Result<Placeholder, Seq<char>> {
    let left = c.subrange(0, p);
    let right = c.subrange(p + sep.len(), c.len() as int);
    match (parse_index(left), parse_index(right)) {
        (Some(a), Some(b)) => if a == 0 || b == 0 {
            Err(start_at_one_msg())
        } else if a > b {
            Err("Invalid range: "@ + decimal(a) + sep + decimal(b) + " (start > end)"@)
        } else if b - a + 1 > MAX_MACRO_PLACEHOLDER_RANGE {
            Err(
                "Range "@ + decimal(a) + sep + decimal(b) + " spans "@ + decimal(
                    (b - a + 1) as nat,
                ) + " indices, exceeding the limit of 256"@,
            )
        } else {
            Ok(Placeholder::Range(a as usize, b as usize))
        },
        _ => Err(invalid_msg(c)),
    }
}

/// What a placeholder body (the text between `{{` and `}}`) means.
#[verifier::opaque]
pub open spec fn placeholder_spec(content: Seq<char>) -> Result<Placeholder, Seq<char>> {
    let c = trim(content);
    if c.len() == 0 {
        Ok(Placeholder::All)
    } else if ends_with(c, dots3()) {
        greedy_spec(c, 3)
    } else if ends_with(c, dots2()) {
        greedy_spec(c, 2)
    } else if find(c, dots3()) is Some {
        range_spec(c, find(c, dots3())->0, dots3())
    } else if find(c, dots2()) is Some {
        range_spec(c, find(c, dots2())->0, dots2())
    } else {
        match parse_index(c) {
            None => Err(invalid_msg(c)),
            Some(n) => if n == 0 {
                Err(start_at_one_msg())
            } else {
                Ok(Placeholder::Single(n as usize))
            },
        }
    }
}

pub open spec fn placeholder_wf(ph: Placeholder) -> bool {
    match ph {
        Placeholder::All => true,
        Placeholder::Single(n) => n >= 1,
        Placeholder::Range(a, b) => 1 <= a <= b,
        Placeholder::Greedy(a) => a >= 1,
    }
}

// ---------------------------------------------------------------------
// Specification: scanning a template
// ---------------------------------------------------------------------

/// Index `j >= from` of the first `}}` in `t`.
pub open spec fn close_from(t: Seq<char>, j: int) -> Option<int>
    decreases t.len() - j,
{
    if j < 0 || j + 1 >= t.len() {
        None
    } else if t[j] == '}' && t[j + 1] == '}' {
        Some(j)
    } else {
        close_from(t, j + 1)
    }
}

pub proof fn lemma_close_from_bounds(t: Seq<char>, j: int)
    ensures
        close_from(t, j) matches Some(k) ==> (j <= k && 0 <= k && k + 1 < t.len() && t[k] == '}'
            && t[k + 1] == '}'),
    decreases t.len() - j,
{
    if !(j < 0 || j + 1 >= t.len()) && !(t[j] == '}' && t[j + 1] == '}') {
        lemma_close_from_bounds(t, j + 1);
    }
}

pub open spec fn prepend_items(pre: Seq<ScanItem>, r: Result<Seq<ScanItem>, Seq<char>>) -> Result<
    Seq<ScanItem>,
    Seq<char>,
> {
    match r {
        Ok(rest) => Ok(pre + rest),
        Err(e) => Err(e),
    }
}

/// The escapes and placeholders of `t` from index `i` on, or the first placeholder error.
pub open spec fn scan_from(t: Seq<char>, i: int) -> Result<Seq<ScanItem>, Seq<char>>
    decreases t.len() - i,
{
    if i < 0 || i >= t.len() {
        Ok(seq![])
    } else if t[i] == '\\' && i + 2 < t.len() && t[i + 1] == '{' && t[i + 2] == '{' {
        prepend_items(seq![ScanItem::Escaped(i as usize, (i + 1) as usize)], scan_from(t, i + 1))
    } else if t[i] == '{' && i > 0 && t[i - 1] == '\\' {
        scan_from(t, i + 1)
    } else if i + 1 < t.len() && t[i] == '{' && t[i + 1] == '{' {
        match close_from(t, i + 2) {
            Some(j) => {
                proof {
                    lemma_close_from_bounds(t, i + 2);
                }
                match placeholder_spec(t.subrange(i + 2, j)) {
                Err(e) => Err(e),
                Ok(ph) => prepend_items(
                    seq![ScanItem::Placeholder(i as usize, (j + 2) as usize, ph)],
                    scan_from(t, j + 2),
                ),
            }},
            None => scan_from(t, i + 1),
        }
    } else {
        scan_from(t, i + 1)
    }
}

pub open spec fn scan_spec(t: Seq<char>) -> Result<Seq<ScanItem>, Seq<char>> {
    scan_from(t, 0)
}

pub open spec fn item_start(it: ScanItem) -> int {
    match it {
        ScanItem::Escaped(s, _) => s as int,
        ScanItem::Placeholder(s, _, _) => s as int,
    }
}

pub open spec fn item_end(it: ScanItem) -> int {
    match it {
        ScanItem::Escaped(_, e) => e as int,
        ScanItem::Placeholder(_, e, _) => e as int,
    }
}

pub open spec fn item_wf(it: ScanItem) -> bool {
    match it {
        ScanItem::Escaped(s, e) => e == s + 1,
        ScanItem::Placeholder(s, e, ph) => s < e && placeholder_wf(ph),
    }
}

/// The items lie in `[lo, n)`, in order, without overlapping.
pub open spec fn items_ordered(items: Seq<ScanItem>, lo: int, n: int) -> bool {
    &&& forall|k: int|
        0 <= k < items.len() ==> {
            &&& lo <= item_start(#[trigger] items[k])
            &&& item_start(items[k]) < item_end(items[k]) <= n
            &&& item_wf(items[k])
        }
    &&& forall|k: int|
        0 <= k && k + 1 < items.len() ==> item_end(#[trigger] items[k]) <= item_start(items[k + 1])
}

// ---------------------------------------------------------------------
// Specification: validation
// ---------------------------------------------------------------------

pub open spec fn has_all(items: Seq<ScanItem>) -> bool {
    exists|k: int|
        0 <= k < items.len() && (#[trigger] items[k]) matches ScanItem::Placeholder(
            _,
            _,
            Placeholder::All,
        )
}

/// The `{{n}}` indices, in template order.
pub open spec fn singles_of(items: Seq<ScanItem>) -> Seq<usize>
    decreases items.len(),
{
    if items.len() == 0 {
        seq![]
    } else {
        let p = singles_of(items.drop_last());
        match items.last() {
            ScanItem::Placeholder(_, _, Placeholder::Single(n)) => p.push(n),
            _ => p,
        }
    }
}

/// The covered ranges in template order; `{{a..}}` covers `a..=usize::MAX`.
pub open spec fn ranges_of(items: Seq<ScanItem>) -> Seq<(usize, usize)>
    decreases items.len(),
{
    if items.len() == 0 {
        seq![]
    } else {
        let p = ranges_of(items.drop_last());
        match items.last() {
            ScanItem::Placeholder(_, _, Placeholder::Range(a, b)) => p.push((a, b)),
            ScanItem::Placeholder(_, _, Placeholder::Greedy(a)) => p.push((a, usize::MAX)),
            _ => p,
        }
    }
}

/// The first range, from index `j` on, that contains `n`.
pub open spec fn first_range_with(n: usize, ranges: Seq<(usize, usize)>, j: int) -> Option<
    (usize, usize),
>
    decreases ranges.len() - j,
{
    if j < 0 || j >= ranges.len() {
        None
    } else if ranges[j].0 <= n && n <= ranges[j].1 {
        Some(ranges[j])
    } else {
        first_range_with(n, ranges, j + 1)
    }
}

/// The first single index (from position `i` on) that lies in some range, with that range.
pub open spec fn first_overlap_from(singles: Seq<usize>, ranges: Seq<(usize, usize)>, i: int) -> Option<
    (usize, usize, usize),
>
    decreases singles.len() - i,
{
    if i < 0 || i >= singles.len() {
        None
    } else {
        match first_range_with(singles[i], ranges, 0) {
            Some(r) => Some((singles[i], r.0, r.1)),
            None => first_overlap_from(singles, ranges, i + 1),
        }
    }
}

pub open spec fn max_nat(a: nat, b: nat) -> nat {
    if a >= b {
        a
    } else {
        b
    }
}

pub open spec fn singles_max(s: Seq<usize>) -> nat
    decreases s.len(),
{
    if s.len() == 0 {
        0
    } else {
        max_nat(singles_max(s.drop_last()), s.last() as nat)
    }
}

/// Largest start or (finite) end among the ranges.
pub open spec fn ranges_max(r: Seq<(usize, usize)>) -> nat
    decreases r.len(),
{
    if r.len() == 0 {
        0
    } else {
        let m = max_nat(ranges_max(r.drop_last()), r.last().0 as nat);
        if r.last().1 != usize::MAX {
            max_nat(m, r.last().1 as nat)
        } else {
            m
        }
    }
}

pub open spec fn covered(i: int, singles: Seq<usize>, ranges: Seq<(usize, usize)>) -> bool {
    (exists|k: int| 0 <= k < singles.len() && singles[k] == i) || (exists|k: int|
        0 <= k < ranges.len() && ranges[k].0 <= i && i <= ranges[k].1)
}

/// The first index in `[i, m]` that no placeholder covers.
pub open spec fn first_gap_from(i: int, m: int, singles: Seq<usize>, ranges: Seq<(usize, usize)>) -> Option<
    int,
>
    decreases m + 1 - i,
{
    if i > m {
        None
    } else if !covered(i, singles, ranges) {
        Some(i)
    } else {
        first_gap_from(i + 1, m, singles, ranges)
    }
}

pub open spec fn overlap_msg(n: usize, a: usize, b: usize) -> Seq<char> {
    "Placeholder {{"@ + decimal(n as nat) + "}} overlaps with range {{"@ + decimal(a as nat)
        + ".."@ + decimal(b as nat) + "}}"@
}

pub open spec fn too_high_msg(m: nat) -> Seq<char> {
    "Highest placeholder index "@ + decimal(m) + " exceeds the limit of 256"@
}

pub open spec fn gap_msg(g: nat, m: nat) -> Seq<char> {
    "Gap at index "@ + decimal(g) + ": all indices from 1 to "@ + decimal(m) + " must be covered"@
}

/// Whether the placeholders of a template may be used together.
pub open spec fn validate_spec(items: Seq<ScanItem>) -> Result<(), Seq<char>> {
    let s = singles_of(items);
    let r = ranges_of(items);
    if has_all(items) {
        Ok(())
    } else {
        match first_overlap_from(s, r, 0) {
            Some(o) => Err(overlap_msg(o.0, o.1, o.2)),
            None => if s.len() == 0 && r.len() == 0 {
                Ok(())
            } else {
                let m = max_nat(singles_max(s), ranges_max(r));
                if m > MAX_MACRO_PLACEHOLDER_RANGE {
                    Err(too_high_msg(m))
                } else {
                    match first_gap_from(1, m as int, s, r) {
                        Some(g) => Err(gap_msg(g as nat, m)),
                        None => Ok(()),
                    }
                }
            },
        }
    }
}

// ---------------------------------------------------------------------
// Specification: expansion
// ---------------------------------------------------------------------

pub open spec fn min_int(a: int, b: int) -> int {
    if a <= b {
        a
    } else {
        b
    }
}

/// The text a placeholder is replaced by.
pub open spec fn replacement(ph: Placeholder, raw: Seq<char>, args: Seq<Seq<char>>) -> Seq<char> {
    match ph {
        Placeholder::All => raw,
        Placeholder::Single(n) => if 1 <= n <= args.len() {
            args[n - 1]
        } else {
            seq![]
        },
        Placeholder::Range(a, b) => join_space(
            args.subrange(min_int(a - 1, args.len() as int), min_int(b as int, args.len() as int)),
        ),
        Placeholder::Greedy(a) => join_space(
            args.subrange(min_int(a - 1, args.len() as int), args.len() as int),
        ),
    }
}

pub open spec fn item_text(it: ScanItem, raw: Seq<char>, args: Seq<Seq<char>>) -> Seq<char> {
    match it {
        ScanItem::Escaped(_, _) => seq![],
        ScanItem::Placeholder(_, _, ph) => replacement(ph, raw, args),
    }
}

pub open spec fn last_end(items: Seq<ScanItem>, k: int) -> int {
    if k <= 0 {
        0
    } else {
        item_end(items[k - 1])
    }
}

/// The output produced by the first `k` items (the text before and including each).
pub open spec fn expand_upto(
    t: Seq<char>,
    items: Seq<ScanItem>,
    k: int,
    raw: Seq<char>,
    args: Seq<Seq<char>>,
) -> Seq<char>
    decreases k,
{
    if k <= 0 {
        seq![]
    } else {
        expand_upto(t, items, k - 1, raw, args) + t.subrange(
            last_end(items, k - 1),
            item_start(items[k - 1]),
        ) + item_text(items[k - 1], raw, args)
    }
}

/// The template with every item replaced and the rest copied.
pub open spec fn expand_items(
    t: Seq<char>,
    items: Seq<ScanItem>,
    raw: Seq<char>,
    args: Seq<Seq<char>>,
) -> Seq<char> {
    expand_upto(t, items, items.len() as int, raw, args) + t.subrange(
        last_end(items, items.len() as int),
        t.len() as int,
    )
}

/// The result of expanding `template` with the argument string `raw`.
pub open spec fn expand_spec(template: Seq<char>, raw: Seq<char>) -> Result<Seq<char>, Seq<char>> {
    match scan_spec(template) {
        Err(e) => Err(e),
        Ok(items) => match validate_spec(items) {
            Err(e) => Err(e),
            Ok(_) => Ok(expand_items(template, items, raw, split_ws(raw))),
        },
    }
}

pub open spec fn string_result<T>(r: Result<T, String>) -> Result<T, Seq<char>> {
    match r {
        Ok(v) => Ok(v),
        Err(e) => Err(e@),
    }
}

pub open spec fn text_result(r: Result<String, String>) -> Result<Seq<char>, Seq<char>> {
    match r {
        Ok(v) => Ok(v@),
        Err(e) => Err(e@),
    }
}

pub open spec fn chars_result<T>(r: Result<T, Vec<char>>) -> Result<T, Seq<char>> {
    match r {
        Ok(v) => Ok(v),
        Err(e) => Err(e@),
    }
}

pub open spec fn items_result(r: Result<Vec<ScanItem>, Vec<char>>) -> Result<
    Seq<ScanItem>,
    Seq<char>,
> {
    match r {
        Ok(v) => Ok(v@),
        Err(e) => Err(e@),
    }
}

// ---------------------------------------------------------------------
// Lemmas
// ---------------------------------------------------------------------

pub proof fn lemma_placeholder_wf(content: Seq<char>)
    ensures
        placeholder_spec(content) matches Ok(ph) ==> placeholder_wf(ph),
{
    reveal(placeholder_spec);
}

/// Joining a run of the arguments and splitting the result into words gives that run.
proof fn lemma_arguments_rejoined(raw: Seq<char>, lo: int, hi: int)
    requires
        0 <= lo <= hi <= split_ws(raw).len(),
    ensures
        split_ws(join_space(split_ws(raw).subrange(lo, hi))) == split_ws(raw).subrange(lo, hi),
        single_spaced(join_space(split_ws(raw).subrange(lo, hi))),
{
    let args = split_ws(raw);
    let run = args.subrange(lo, hi);
    lemma_split_ws_words(raw);
    assert forall|k: int| 0 <= k < run.len() implies is_word(#[trigger] run[k]) by {
        assert(run[k] == args[lo + k]);
    }
    lemma_split_ws_join(run);
    lemma_join_space_spaced(run);
}

/// A range placeholder `{{a..b}}` stands for arguments `a` through `b`, counted from
/// one and cut off at the last argument, joined by single spaces: the words of its
/// replacement are exactly those arguments in order, the first of them argument `a`,
/// and none when there are fewer than `a` arguments.
pub proof fn law_range_gives_arguments_a_to_b(a: usize, b: usize, raw: Seq<char>)
    requires
        1 <= a <= b,
    ensures
        ({
            let args = split_ws(raw);
            let words = split_ws(replacement(Placeholder::Range(a, b), raw, args));
            &&& words.len() == (if a - 1 < args.len() { min_int(b as int, args.len() as int) - (a - 1) } else { 0 })
            &&& forall|i: int| 0 <= i < words.len() ==> words[i] == args[a - 1 + i]
            &&& single_spaced(replacement(Placeholder::Range(a, b), raw, args))
        }),
{
    let args = split_ws(raw);
    lemma_arguments_rejoined(
        raw,
        min_int(a - 1, args.len() as int),
        min_int(b as int, args.len() as int),
    );
}

/// A greedy placeholder `{{a..}}` stands for argument `a` and every argument after it,
/// joined by single spaces: the words of its replacement are exactly those arguments
/// in order, and none when there are fewer than `a` arguments.
pub proof fn law_greedy_gives_arguments_from_a(a: usize, raw: Seq<char>)
    requires
        1 <= a,
    ensures
        ({
            let args = split_ws(raw);
            let words = split_ws(replacement(Placeholder::Greedy(a), raw, args));
            &&& words.len() == (if a - 1 < args.len() { args.len() - (a - 1) } else { 0 })
            &&& forall|i: int| 0 <= i < words.len() ==> words[i] == args[a - 1 + i]
            &&& single_spaced(replacement(Placeholder::Greedy(a), raw, args))
        }),
{
    let args = split_ws(raw);
    lemma_arguments_rejoined(raw, min_int(a - 1, args.len() as int), args.len() as int);
}

/// `{{n}}` is replaced by the `n`-th word of the arguments (counted from one), or by
/// nothing when there are fewer words; `{{}}` by the argument text as it was given.
pub proof fn law_single_and_all_placeholders(n: usize, raw: Seq<char>)
    requires
        1 <= n,
    ensures
        n <= split_ws(raw).len() ==> split_ws(replacement(Placeholder::Single(n), raw, split_ws(raw)))
            == seq![split_ws(raw)[n - 1]],
        n > split_ws(raw).len() ==> replacement(Placeholder::Single(n), raw, split_ws(raw)).len() == 0,
        replacement(Placeholder::All, raw, split_ws(raw)) == raw,
{
    if n <= split_ws(raw).len() {
        lemma_arguments_rejoined(raw, n - 1, n as int);
        assert(split_ws(raw).subrange(n - 1, n as int) =~= seq![split_ws(raw)[n - 1]]);
    }
}

proof fn lemma_prepend_assoc(pre: Seq<ScanItem>, x: ScanItem, r: Result<Seq<ScanItem>, Seq<char>>)
    ensures
        prepend_items(pre, prepend_items(seq![x], r)) == prepend_items(pre.push(x), r),
{
    match r {
        Ok(rest) => {
            assert(pre + (seq![x] + rest) =~= pre.push(x) + rest);
        },
        Err(_) => {},
    }
}

proof fn lemma_prepend_ordered(x: ScanItem, rest: Seq<ScanItem>, lo: int, next: int, n: int)
    requires
        items_ordered(rest, next, n),
        lo <= item_start(x) < item_end(x) <= next,
        item_end(x) <= n,
        item_wf(x),
    ensures
        items_ordered(seq![x] + rest, lo, n),
{
    let items = seq![x] + rest;
    assert forall|k: int| 0 <= k && k + 1 < items.len() implies item_end(#[trigger] items[k])
        <= item_start(items[k + 1]) by {
        if k > 0 {
            assert(items[k] == rest[k - 1]);
            assert(items[k + 1] == rest[k]);
        } else {
            assert(items[1] == rest[0]);
        }
    }
    assert forall|k: int| 0 <= k < items.len() implies {
        &&& lo <= item_start(#[trigger] items[k])
        &&& item_start(items[k]) < item_end(items[k]) <= n
        &&& item_wf(items[k])
    } by {
        if k > 0 {
            assert(items[k] == rest[k - 1]);
        }
    }
}

/// Whatever a scan from `i` finds lies in `[i, t.len())`, in order.
pub proof fn lemma_scan_ordered(t: Seq<char>, i: int)
    requires
        0 <= i,
        t.len() <= usize::MAX,
    ensures
        scan_from(t, i) matches Ok(items) ==> items_ordered(items, i, t.len() as int),
    decreases t.len() - i,
{
    if i >= t.len() {
    } else if t[i] == '\\' && i + 2 < t.len() && t[i + 1] == '{' && t[i + 2] == '{' {
        lemma_scan_ordered(t, i + 1);
        if let Ok(rest) = scan_from(t, i + 1) {
            lemma_prepend_ordered(
                ScanItem::Escaped(i as usize, (i + 1) as usize),
                rest,
                i,
                i + 1,
                t.len() as int,
            );
        }
    } else if t[i] == '{' && i > 0 && t[i - 1] == '\\' {
        lemma_scan_ordered(t, i + 1);
    } else if i + 1 < t.len() && t[i] == '{' && t[i + 1] == '{' {
        lemma_close_from_bounds(t, i + 2);
        match close_from(t, i + 2) {
            Some(j) => {
                lemma_placeholder_wf(t.subrange(i + 2, j));
                lemma_scan_ordered(t, j + 2);
                if let Ok(ph) = placeholder_spec(t.subrange(i + 2, j)) {
                    if let Ok(rest) = scan_from(t, j + 2) {
                        lemma_prepend_ordered(
                            ScanItem::Placeholder(i as usize, (j + 2) as usize, ph),
                            rest,
                            i,
                            j + 2,
                            t.len() as int,
                        );
                    }
                }
            },
            None => {
                lemma_scan_ordered(t, i + 1);
            },
        }
    } else {
        lemma_scan_ordered(t, i + 1);
    }
}

// ---------------------------------------------------------------------
// Executable code: placeholders
// ---------------------------------------------------------------------

fn invalid_placeholder(c: &[char]) -> (r: Vec<char>)
    ensures
        r@ == invalid_msg(c@),
{
    let mut m = chars_of("Invalid placeholder: {{");
    push_all(&mut m, c);
    push_str(&mut m, "}}");
    m
}

fn parse_greedy(c: &[char], w: usize) -> (r: Result<Placeholder, Vec<char>>)
    requires
        w == 2 || w == 3,
        c.len() >= w,
    ensures
        chars_result(r) == greedy_spec(c@, w as nat),
{
    let rest = sub_chars(c, 0, c.len() - w);
    if rest.len() == 0 {
        if w == 3 {
            return Err(chars_of("Invalid placeholder: {{...}}"));
        } else {
            return Err(chars_of("Invalid placeholder: {{..}}"));
        }
    }
    match parse_usize_chars(rest.as_slice()) {
        None => Err(invalid_placeholder(c)),
        Some(n) => {
            if n == 0 {
                Err(chars_of("Placeholder indices start at 1"))
            } else {
                Ok(Placeholder::Greedy(n))
            }
        },
    }
}

fn parse_range(c: &[char], p: usize, sep: &[char]) -> (r: Result<Placeholder, Vec<char>>)
    requires
        p <= c.len(),
        sep.len() <= c.len() - p,
    ensures
        chars_result(r) == range_spec(c@, p as int, sep@),
{
    let left = sub_chars(c, 0, p);
    let right = sub_chars(c, p + sep.len(), c.len());
    let pa = parse_usize_chars(left.as_slice());
    let pb = parse_usize_chars(right.as_slice());
    match (pa, pb) {
        (Some(a), Some(b)) => {
            if a == 0 || b == 0 {
                Err(chars_of("Placeholder indices start at 1"))
            } else if a > b {
                let mut m = chars_of("Invalid range: ");
                push_decimal(&mut m, a as u64);
                push_all(&mut m, sep);
                push_decimal(&mut m, b as u64);
                push_str(&mut m, " (start > end)");
                Err(m)
            } else if b - a + 1 > MAX_MACRO_PLACEHOLDER_RANGE {
                let mut m = chars_of("Range ");
                push_decimal(&mut m, a as u64);
                push_all(&mut m, sep);
                push_decimal(&mut m, b as u64);
                push_str(&mut m, " spans ");
                push_decimal(&mut m, (b - a + 1) as u64);
                push_str(&mut m, " indices, exceeding the limit of 256");
                Err(m)
            } else {
                Ok(Placeholder::Range(a, b))
            }
        },
        _ => Err(invalid_placeholder(c)),
    }
}

fn parse_placeholder_chars(content: &[char]) -> (r: Result<Placeholder, Vec<char>>)
    ensures
        chars_result(r) == placeholder_spec(content@),
{
    reveal(placeholder_spec);
    let c = trim_chars(content);
    if c.len() == 0 {
        return Ok(Placeholder::All);
    }
    let d3: Vec<char> = vec!['.', '.', '.'];
    let d2: Vec<char> = vec!['.', '.'];
    assert(d3@ =~= dots3());
    assert(d2@ =~= dots2());
    if has_suffix(c.as_slice(), d3.as_slice()) {
        return parse_greedy(c.as_slice(), 3);
    }
    if has_suffix(c.as_slice(), d2.as_slice()) {
        return parse_greedy(c.as_slice(), 2);
    }
    match find_chars(c.as_slice(), d3.as_slice()) {
        Some(p) => {
            return parse_range(c.as_slice(), p, d3.as_slice());
        },
        None => {},
    }
    match find_chars(c.as_slice(), d2.as_slice()) {
        Some(p) => {
            return parse_range(c.as_slice(), p, d2.as_slice());
        },
        None => {},
    }
    match parse_usize_chars(c.as_slice()) {
        None => Err(invalid_placeholder(c.as_slice())),
        Some(n) => {
            if n == 0 {
                Err(chars_of("Placeholder indices start at 1"))
            } else {
                Ok(Placeholder::Single(n))
            }
        },
    }
}

/// Parses the body of a `{{...}}` placeholder.
pub fn parse_placeholder(content: &str) -> (r: Result<Placeholder, String>)
    ensures
        string_result(r) == placeholder_spec(content@),
{
    let cs = chars_of(content);
    match parse_placeholder_chars(cs.as_slice()) {
        Ok(p) => Ok(p),
        Err(e) => Err(string_of(e.as_slice())),
    }
}

// ---------------------------------------------------------------------
// Executable code: scanning
// ---------------------------------------------------------------------

fn find_close(t: &[char], from: usize) -> (r: Option<usize>)
    ensures
        r == (match close_from(t@, from as int) {
            Some(j) => Some(j as usize),
            None => None,
        }),
{
    proof {
        lemma_close_from_bounds(t@, from as int);
    }
    let mut j = from;
    while j < t.len() && t.len() - j > 1
        invariant
            from <= j,
            close_from(t@, from as int) == close_from(t@, j as int),
        decreases t.len() - j,
    {
        if t[j] == '}' && t[j + 1] == '}' {
            return Some(j);
        }
        j = j + 1;
    }
    None
}

fn scan_chars(t: &[char]) -> (r: Result<Vec<ScanItem>, Vec<char>>)
    ensures
        items_result(r) == scan_spec(t@),
{
    let mut result: Vec<ScanItem> = Vec::new();
    let mut i: usize = 0;
    assert(result@ + seq![] =~= result@);
    while i < t.len()
        invariant
            i <= t.len(),
            scan_spec(t@) == prepend_items(result@, scan_from(t@, i as int)),
        decreases t.len() - i,
    {
        if t[i] == '\\' && t.len() - i > 2 && t[i + 1] == '{' && t[i + 2] == '{' {
            let ghost before = result@;
            let item = ScanItem::Escaped(i, i + 1);
            result.push(item);
            proof {
                lemma_prepend_assoc(before, item, scan_from(t@, i + 1));
            }
            i = i + 1;
        } else if t[i] == '{' && i > 0 && t[i - 1] == '\\' {
            i = i + 1;
        } else if t.len() - i > 1 && t[i] == '{' && t[i + 1] == '{' {
            match find_close(t, i + 2) {
                Some(j) => {
                    proof {
                        lemma_close_from_bounds(t@, i + 2);
                    }
                    let content = sub_chars(t, i + 2, j);
                    match parse_placeholder_chars(content.as_slice()) {
                        Err(e) => {
                            return Err(e);
                        },
                        Ok(ph) => {
                            let ghost before = result@;
                            let item = ScanItem::Placeholder(i, j + 2, ph);
                            result.push(item);
                            proof {
                                lemma_prepend_assoc(before, item, scan_from(t@, j + 2));
                            }
                            i = j + 2;
                        },
                    }
                },
                None => {
                    i = i + 1;
                },
            }
        } else {
            i = i + 1;
        }
    }
    Ok(result)
}

/// Finds the escapes and placeholders of a template, in order.
pub fn scan_template(template: &str) -> (r: Result<Vec<ScanItem>, String>)
    ensures
        (match r {
            Ok(v) => Ok(v@),
            Err(e) => Err(e@),
        }) == scan_spec(template@),
{
    let t = chars_of(template);
    match scan_chars(t.as_slice()) {
        Ok(v) => Ok(v),
        Err(e) => Err(string_of(e.as_slice())),
    }
}

// ---------------------------------------------------------------------
// Executable code: validation
// ---------------------------------------------------------------------

fn contains_index(singles: &Vec<usize>, idx: usize) -> (b: bool)
    ensures
        b == (exists|k: int| 0 <= k < singles@.len() && singles@[k] == idx),
{
    let mut k: usize = 0;
    while k < singles.len()
        invariant
            k <= singles.len(),
            forall|m: int| 0 <= m < k ==> singles@[m] != idx,
        decreases singles.len() - k,
    {
        if singles[k] == idx {
            return true;
        }
        k = k + 1;
    }
    false
}

fn any_range_contains(ranges: &Vec<(usize, usize)>, idx: usize) -> (b: bool)
    ensures
        b == (exists|k: int|
            0 <= k < ranges@.len() && ranges@[k].0 <= idx && idx <= ranges@[k].1),
{
    let mut k: usize = 0;
    while k < ranges.len()
        invariant
            k <= ranges.len(),
            forall|m: int| 0 <= m < k ==> !(ranges@[m].0 <= idx && idx <= ranges@[m].1),
        decreases ranges.len() - k,
    {
        if ranges[k].0 <= idx && idx <= ranges[k].1 {
            return true;
        }
        k = k + 1;
    }
    false
}

fn collect_placeholders(items: &Vec<ScanItem>) -> (r: (Vec<usize>, Vec<(usize, usize)>, bool))
    ensures
        r.0@ == singles_of(items@),
        r.1@ == ranges_of(items@),
        r.2 == has_all(items@),
{
    let mut singles: Vec<usize> = Vec::new();
    let mut ranges: Vec<(usize, usize)> = Vec::new();
    let mut all = false;
    let mut k: usize = 0;
    while k < items.len()
        invariant
            k <= items.len(),
            singles@ == singles_of(items@.take(k as int)),
            ranges@ == ranges_of(items@.take(k as int)),
            all == has_all(items@.take(k as int)),
        decreases items.len() - k,
    {
        let ghost tk = items@.take(k + 1);
        assert(tk.drop_last() =~= items@.take(k as int));
        assert(tk.last() == items@[k as int]);
        match items[k] {
            ScanItem::Placeholder(_, _, Placeholder::All) => {
                all = true;
                assert(tk[k as int] == items@[k as int]);
            },
            ScanItem::Placeholder(_, _, Placeholder::Single(n)) => {
                singles.push(n);
            },
            ScanItem::Placeholder(_, _, Placeholder::Range(a, b)) => {
                ranges.push((a, b));
            },
            ScanItem::Placeholder(_, _, Placeholder::Greedy(a)) => {
                ranges.push((a, usize::MAX));
            },
            ScanItem::Escaped(_, _) => {},
        }
        proof {
            if has_all(tk) && !has_all(items@.take(k as int)) {
                let w = choose|w: int|
                    0 <= w < tk.len() && (#[trigger] tk[w]) matches ScanItem::Placeholder(
                        _,
                        _,
                        Placeholder::All,
                    );
                if w < k {
                    assert(items@.take(k as int)[w] == tk[w]);
                }
            }
            if has_all(items@.take(k as int)) {
                let w = choose|w: int|
                    0 <= w < items@.take(k as int).len() && (#[trigger] items@.take(
                        k as int,
                    )[w]) matches ScanItem::Placeholder(_, _, Placeholder::All);
                assert(tk[w] == items@.take(k as int)[w]);
            }
        }
        k = k + 1;
    }
    assert(items@.take(items.len() as int) =~= items@);
    (singles, ranges, all)
}

fn overlap_message(n: usize, a: usize, b: usize) -> (m: Vec<char>)
    ensures
        m@ == overlap_msg(n, a, b),
{
    let mut m = chars_of("Placeholder {{");
    push_decimal(&mut m, n as u64);
    push_str(&mut m, "}} overlaps with range {{");
    push_decimal(&mut m, a as u64);
    push_str(&mut m, "..");
    push_decimal(&mut m, b as u64);
    push_str(&mut m, "}}");
    m
}

fn first_overlap(singles: &Vec<usize>, ranges: &Vec<(usize, usize)>) -> (r: Option<
    (usize, usize, usize),
>)
    ensures
        r == first_overlap_from(singles@, ranges@, 0),
{
    let mut i: usize = 0;
    while i < singles.len()
        invariant
            i <= singles.len(),
            first_overlap_from(singles@, ranges@, 0) == first_overlap_from(
                singles@,
                ranges@,
                i as int,
            ),
        decreases singles.len() - i,
    {
        let n = singles[i];
        let mut j: usize = 0;
        while j < ranges.len()
            invariant
                j <= ranges.len(),
                n == singles@[i as int],
                i < singles.len(),
                first_overlap_from(singles@, ranges@, 0) == first_overlap_from(
                    singles@,
                    ranges@,
                    i as int,
                ),
                first_range_with(n, ranges@, 0) == first_range_with(n, ranges@, j as int),
            decreases ranges.len() - j,
        {
            if ranges[j].0 <= n && n <= ranges[j].1 {
                return Some((n, ranges[j].0, ranges[j].1));
            }
            j = j + 1;
        }
        i = i + 1;
    }
    None
}

fn max_index(singles: &Vec<usize>, ranges: &Vec<(usize, usize)>) -> (m: usize)
    ensures
        m as nat == max_nat(singles_max(singles@), ranges_max(ranges@)),
{
    let mut m: usize = 0;
    let mut i: usize = 0;
    while i < singles.len()
        invariant
            i <= singles.len(),
            m as nat == singles_max(singles@.take(i as int)),
        decreases singles.len() - i,
    {
        assert(singles@.take(i + 1).drop_last() =~= singles@.take(i as int));
        if singles[i] > m {
            m = singles[i];
        }
        i = i + 1;
    }
    assert(singles@.take(singles.len() as int) =~= singles@);
    let ghost sm = singles_max(singles@);
    let mut j: usize = 0;
    while j < ranges.len()
        invariant
            j <= ranges.len(),
            m as nat == max_nat(sm, ranges_max(ranges@.take(j as int))),
        decreases ranges.len() - j,
    {
        assert(ranges@.take(j + 1).drop_last() =~= ranges@.take(j as int));
        let (a, b) = ranges[j];
        if a > m {
            m = a;
        }
        if b != usize::MAX && b > m {
            m = b;
        }
        j = j + 1;
    }
    assert(ranges@.take(ranges.len() as int) =~= ranges@);
    m
}

fn validate_items(items: &Vec<ScanItem>) -> (r: Result<(), Vec<char>>)
    ensures
        chars_result(r) == validate_spec(items@),
{
    let (singles, ranges, all) = collect_placeholders(items);
    if all {
        return Ok(());
    }
    match first_overlap(&singles, &ranges) {
        Some((n, a, b)) => {
            return Err(overlap_message(n, a, b));
        },
        None => {},
    }
    if singles.len() == 0 && ranges.len() == 0 {
        return Ok(());
    }
    let max_idx = max_index(&singles, &ranges);
    if max_idx > MAX_MACRO_PLACEHOLDER_RANGE {
        let mut m = chars_of("Highest placeholder index ");
        push_decimal(&mut m, max_idx as u64);
        push_str(&mut m, " exceeds the limit of 256");
        return Err(m);
    }
    let mut idx: usize = 1;
    while idx <= max_idx
        invariant
            1 <= idx <= max_idx + 1,
            max_idx <= MAX_MACRO_PLACEHOLDER_RANGE,
            singles@ == singles_of(items@),
            ranges@ == ranges_of(items@),
            !has_all(items@),
            first_overlap_from(singles@, ranges@, 0) is None,
            !(singles@.len() == 0 && ranges@.len() == 0),
            max_idx as nat == max_nat(singles_max(singles@), ranges_max(ranges@)),
            first_gap_from(1, max_idx as int, singles@, ranges@) == first_gap_from(
                idx as int,
                max_idx as int,
                singles@,
                ranges@,
            ),
        decreases max_idx + 1 - idx,
    {
        let in_single = contains_index(&singles, idx);
        let in_range = any_range_contains(&ranges, idx);
        if !in_single && !in_range {
            assert(!covered(idx as int, singles@, ranges@));
            assert(first_gap_from(idx as int, max_idx as int, singles@, ranges@) == Some(
                idx as int,
            ));
            let mut m = chars_of("Gap at index ");
            push_decimal(&mut m, idx as u64);
            push_str(&mut m, ": all indices from 1 to ");
            push_decimal(&mut m, max_idx as u64);
            push_str(&mut m, " must be covered");
            return Err(m);
        }
        idx = idx + 1;
    }
    Ok(())
}

/// Checks that the placeholders of a template may be used together.
pub fn validate_placeholders(items: &[ScanItem]) -> (r: Result<(), String>)
    ensures
        string_result(r) == validate_spec(items@),
{
    let mut v: Vec<ScanItem> = Vec::new();
    let mut k: usize = 0;
    while k < items.len()
        invariant
            k <= items.len(),
            v@ == items@.take(k as int),
        decreases items.len() - k,
    {
        v.push(items[k]);
        assert(items@.take(k as int).push(items@[k as int]) =~= items@.take(k + 1));
        k = k + 1;
    }
    assert(items@.take(items.len() as int) =~= items@);
    match validate_items(&v) {
        Ok(()) => Ok(()),
        Err(e) => Err(string_of(e.as_slice())),
    }
}

// ---------------------------------------------------------------------
// Executable code: expansion
// ---------------------------------------------------------------------

fn push_replacement(out: &mut Vec<char>, ph: Placeholder, raw: &[char], args: &Vec<Vec<char>>)
    requires
        placeholder_wf(ph),
    ensures
        final(out)@ == old(out)@ + replacement(ph, raw@, words_view(args@)),
{
    let ghost a = words_view(args@);
    match ph {
        Placeholder::All => {
            push_all(out, raw);
        },
        Placeholder::Single(n) => {
            if n - 1 < args.len() {
                push_all(out, args[n - 1].as_slice());
            } else {
                assert(old(out)@ + seq![] =~= old(out)@);
            }
        },
        Placeholder::Range(a, b) => {
            let from = if a - 1 < args.len() {
                a - 1
            } else {
                args.len()
            };
            let to = if b < args.len() {
                b
            } else {
                args.len()
            };
            let joined = join_words(args, from, to);
            push_all(out, joined.as_slice());
        },
        Placeholder::Greedy(a) => {
            let from = if a - 1 < args.len() {
                a - 1
            } else {
                args.len()
            };
            let joined = join_words(args, from, args.len());
            push_all(out, joined.as_slice());
        },
    }
}

/// Expands `template` with the whitespace-separated arguments in `raw_args`.
pub fn expand_macro(template: &str, raw_args: &str) -> (r: Result<String, String>)
    ensures
        text_result(r) == expand_spec(template@, raw_args@),
{
    let t = chars_of(template);
    let items = match scan_chars(t.as_slice()) {
        Ok(it) => it,
        Err(e) => {
            return Err(string_of(e.as_slice()));
        },
    };
    match validate_items(&items) {
        Ok(()) => {},
        Err(e) => {
            return Err(string_of(e.as_slice()));
        },
    }
    let raw = chars_of(raw_args);
    let args = split_whitespace_chars(raw.as_slice());
    let ghost words = words_view(args@);
    let tl = t.len();
    proof {
        assert(t@.len() == tl);
        lemma_scan_ordered(t@, 0);
    }
    let mut out: Vec<char> = Vec::new();
    let mut last: usize = 0;
    let mut k: usize = 0;
    while k < items.len()
        invariant
            k <= items.len(),
            items_ordered(items@, 0, t@.len() as int),
            words == words_view(args@),
            out@ == expand_upto(t@, items@, k as int, raw@, words),
            last as int == last_end(items@, k as int),
            last <= t.len(),
            k < items.len() ==> last as int <= item_start(items@[k as int]),
        decreases items.len() - k,
    {
        let it = items[k];
        let ghost before = out@;
        match it {
            ScanItem::Escaped(start, skip) => {
                let seg = sub_chars(t.as_slice(), last, start);
                push_all(&mut out, seg.as_slice());
                assert(out@ =~= before + t@.subrange(last as int, start as int) + item_text(
                    it,
                    raw@,
                    words,
                ));
                last = skip;
            },
            ScanItem::Placeholder(start, end, ph) => {
                let seg = sub_chars(t.as_slice(), last, start);
                push_all(&mut out, seg.as_slice());
                push_replacement(&mut out, ph, raw.as_slice(), &args);
                assert(out@ =~= before + t@.subrange(last as int, start as int) + item_text(
                    it,
                    raw@,
                    words,
                ));
                last = end;
            },
        }
        k = k + 1;
    }
    let tail = sub_chars(t.as_slice(), last, t.len());
    push_all(&mut out, tail.as_slice());
    Ok(string_of(out.as_slice()))
}

} // verus!
