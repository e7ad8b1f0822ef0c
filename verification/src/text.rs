//! Character-level string helpers shared by the rest of the library.
//!
//! Strings are modelled by their sequence of characters (`Seq<char>`).
//! Whitespace follows the Unicode `White_Space` property, which is what
//! `char::is_whitespace`, `str::trim` and `str::split_whitespace` use.

use vstd::prelude::*;

verus! {

// ---------------------------------------------------------------------
// Specifications
// ---------------------------------------------------------------------

/// Unicode `White_Space` property (the set used by `char::is_whitespace`).
pub open spec fn is_ws(c: char) -> bool {
    let u = c as u32;
    (0x9 <= u && u <= 0xD) || u == 0x20 || u == 0x85 || u == 0xA0 || u == 0x1680
        || (0x2000 <= u && u <= 0x200A) || u == 0x2028 || u == 0x2029 || u == 0x202F
        || u == 0x205F || u == 0x3000
}

/// ASCII whitespace as `u8::is_ascii_whitespace` defines it.
pub open spec fn is_ascii_ws(c: char) -> bool {
    c == ' ' || c == '\t' || c == '\n' || c == '\x0C' || c == '\r'
}

/// Index of the first non-whitespace character at or after `i`.
pub open spec fn skip_ws_from(s: Seq<char>, i: int) -> int
    decreases s.len() - i,
{
    if 0 <= i < s.len() && is_ws(s[i]) {
        skip_ws_from(s, i + 1)
    } else {
        i
    }
}

/// Index just past the last non-whitespace character before `j`, not going below `lo`.
pub open spec fn back_ws_from(s: Seq<char>, lo: int, j: int) -> int
    decreases j - lo,
{
    if lo < j && j <= s.len() && is_ws(s[j - 1]) {
        back_ws_from(s, lo, j - 1)
    } else {
        j
    }
}

pub open spec fn trim_lo(s: Seq<char>) -> int {
    skip_ws_from(s, 0)
}

pub open spec fn trim_hi(s: Seq<char>) -> int {
    back_ws_from(s, trim_lo(s), s.len() as int)
}

/// `str::trim`: the string without leading and trailing whitespace.
pub open spec fn trim(s: Seq<char>) -> Seq<char> {
    s.subrange(trim_lo(s), trim_hi(s))
}

/// `str::trim_start`.
pub open spec fn trim_start(s: Seq<char>) -> Seq<char> {
    s.subrange(trim_lo(s), s.len() as int)
}

/// `str::split_whitespace`: the maximal runs of non-whitespace characters, in order.
pub open spec fn split_ws(s: Seq<char>) -> Seq<Seq<char>>
    decreases s.len(),
{
    if s.len() == 0 {
        seq![]
    } else {
        let prev = split_ws(s.drop_last());
        let c = s.last();
        if is_ws(c) {
            prev
        } else if s.len() >= 2 && !is_ws(s[s.len() - 2]) && prev.len() > 0 {
            prev.update(prev.len() - 1, prev.last().push(c))
        } else {
            prev.push(seq![c])
        }
    }
}

/// The words joined with one space between neighbours (`[&str]::join(" ")`).
pub open spec fn join_space(words: Seq<Seq<char>>) -> Seq<char>
    decreases words.len(),
{
    if words.len() == 0 {
        seq![]
    } else if words.len() == 1 {
        words[0]
    } else {
        join_space(words.drop_last()) + seq![' '] + words.last()
    }
}

pub open spec fn starts_with(s: Seq<char>, p: Seq<char>) -> bool {
    p.len() <= s.len() && s.subrange(0, p.len() as int) == p
}

pub open spec fn ends_with(s: Seq<char>, p: Seq<char>) -> bool {
    p.len() <= s.len() && s.subrange(s.len() - p.len(), s.len() as int) == p
}

pub open spec fn occurs_at(s: Seq<char>, p: Seq<char>, i: int) -> bool {
    0 <= i && i + p.len() <= s.len() && s.subrange(i, i + p.len()) == p
}

/// Index of the first occurrence of `p` in `s` at or after `i` (`str::find`).
pub open spec fn find_from(s: Seq<char>, p: Seq<char>, i: int) -> Option<int>
    decreases s.len() + 1 - i,
{
    if i < 0 || i + p.len() > s.len() {
        None
    } else if occurs_at(s, p, i) {
        Some(i)
    } else {
        find_from(s, p, i + 1)
    }
}

pub open spec fn find(s: Seq<char>, p: Seq<char>) -> Option<int> {
    find_from(s, p, 0)
}

pub open spec fn contains_char(s: Seq<char>, c: char) -> bool {
    exists|i: int| 0 <= i < s.len() && s[i] == c
}

pub open spec fn is_digit(c: char) -> bool {
    0x30 <= (c as u32) && (c as u32) <= 0x39
}

pub open spec fn digit_value(c: char) -> nat {
    ((c as u32) - 0x30) as nat
}

pub open spec fn digit_char(d: nat) -> char {
    if d == 0 {
        '0'
    } else if d == 1 {
        '1'
    } else if d == 2 {
        '2'
    } else if d == 3 {
        '3'
    } else if d == 4 {
        '4'
    } else if d == 5 {
        '5'
    } else if d == 6 {
        '6'
    } else if d == 7 {
        '7'
    } else if d == 8 {
        '8'
    } else {
        '9'
    }
}

/// Decimal rendering of a natural number (what `{}` prints for an unsigned integer).
pub open spec fn decimal(n: nat) -> Seq<char>
    decreases n,
{
    if n < 10 {
        seq![digit_char(n)]
    } else {
        decimal(n / 10).push(digit_char(n % 10))
    }
}

/// Decimal rendering of a signed integer.
pub open spec fn decimal_int(n: int) -> Seq<char> {
    if n < 0 {
        seq!['-'] + decimal((-n) as nat)
    } else {
        decimal(n as nat)
    }
}

pub open spec fn all_digits(s: Seq<char>) -> bool {
    forall|i: int| 0 <= i < s.len() ==> is_digit(s[i])
}

/// The value of a string of decimal digits.
pub open spec fn digits_value(s: Seq<char>) -> nat
    decreases s.len(),
{
    if s.len() == 0 {
        0
    } else {
        digits_value(s.drop_last()) * 10 + digit_value(s.last())
    }
}

/// The digits of an unsigned `FromStr` input: an optional `+` and then the rest.
pub open spec fn unsigned_digits(s: Seq<char>) -> Seq<char> {
    if s.len() > 0 && s[0] == '+' {
        s.drop_first()
    } else {
        s
    }
}

/// What `str::parse` gives for an unsigned integer type whose largest value is `max`:
/// an optional `+` followed by at least one ASCII digit, and a value no larger than `max`.
pub open spec fn parse_unsigned(s: Seq<char>, max: nat) -> Option<nat> {
    let d = unsigned_digits(s);
    if d.len() > 0 && all_digits(d) && digits_value(d) <= max {
        Some(digits_value(d))
    } else {
        None
    }
}

/// What `str::parse` gives for a signed integer type with range `[min, max]`:
/// an optional `+` or `-` followed by at least one ASCII digit, and a value in range.
pub open spec fn parse_signed(s: Seq<char>, min: int, max: int) -> Option<int> {
    if s.len() > 0 && s[0] == '-' {
        let d = s.drop_first();
        if d.len() > 0 && all_digits(d) && -(digits_value(d) as int) >= min {
            Some(-(digits_value(d) as int))
        } else {
            None
        }
    } else {
        let d = unsigned_digits(s);
        if d.len() > 0 && all_digits(d) && (digits_value(d) as int) <= max {
            Some(digits_value(d) as int)
        } else {
            None
        }
    }
}

// ---------------------------------------------------------------------
// Lemmas
// ---------------------------------------------------------------------

pub proof fn lemma_skip_ws_bounds(s: Seq<char>, i: int)
    requires
        0 <= i <= s.len(),
    ensures
        i <= skip_ws_from(s, i) <= s.len(),
        forall|k: int| i <= k < skip_ws_from(s, i) ==> is_ws(#[trigger] s[k]),
        skip_ws_from(s, i) < s.len() ==> !is_ws(s[skip_ws_from(s, i)]),
    decreases s.len() - i,
{
    if i < s.len() && is_ws(s[i]) {
        lemma_skip_ws_bounds(s, i + 1);
    }
}

pub proof fn lemma_back_ws_bounds(s: Seq<char>, lo: int, j: int)
    requires
        0 <= lo <= j <= s.len(),
    ensures
        lo <= back_ws_from(s, lo, j) <= j,
        forall|k: int| back_ws_from(s, lo, j) <= k < j ==> is_ws(#[trigger] s[k]),
        back_ws_from(s, lo, j) > lo ==> !is_ws(s[back_ws_from(s, lo, j) - 1]),
    decreases j - lo,
{
    if lo < j && is_ws(s[j - 1]) {
        lemma_back_ws_bounds(s, lo, j - 1);
    }
}

pub proof fn lemma_trim_bounds(s: Seq<char>)
    ensures
        0 <= trim_lo(s) <= trim_hi(s) <= s.len(),
        trim(s).len() == 0 <==> (forall|k: int| 0 <= k < s.len() ==> is_ws(#[trigger] s[k])),
{
    lemma_skip_ws_bounds(s, 0);
    lemma_back_ws_bounds(s, trim_lo(s), s.len() as int);
    if trim(s).len() == 0 {
        assert forall|k: int| 0 <= k < s.len() implies is_ws(#[trigger] s[k]) by {
            if k >= trim_lo(s) {
            }
        }
    }
}

pub proof fn lemma_split_ws_nonempty_words(s: Seq<char>)
    ensures
        forall|k: int| 0 <= k < split_ws(s).len() ==> (#[trigger] split_ws(s)[k]).len() > 0,
        s.len() > 0 && !is_ws(s.last()) ==> split_ws(s).len() > 0,
    decreases s.len(),
{
    if s.len() > 0 {
        let prev = split_ws(s.drop_last());
        lemma_split_ws_nonempty_words(s.drop_last());
        let c = s.last();
        if !is_ws(c) && s.len() >= 2 && !is_ws(s[s.len() - 2]) && prev.len() > 0 {
            let upd = prev.update(prev.len() - 1, prev.last().push(c));
            assert forall|k: int| 0 <= k < upd.len() implies (#[trigger] upd[k]).len() > 0 by {
                if k < prev.len() - 1 {
                    assert(upd[k] == prev[k]);
                }
            }
        } else if !is_ws(c) {
            let pu = prev.push(seq![c]);
            assert forall|k: int| 0 <= k < pu.len() implies (#[trigger] pu[k]).len() > 0 by {
                if k < prev.len() {
                    assert(pu[k] == prev[k]);
                }
            }
        }
    }
}

/// A word as `split_whitespace` yields it: non-empty, with no whitespace in it.
pub open spec fn is_word(w: Seq<char>) -> bool {
    w.len() > 0 && forall|j: int| 0 <= j < w.len() ==> !is_ws(#[trigger] w[j])
}

/// Every piece that `split_whitespace` yields is a word.
pub proof fn lemma_split_ws_words(s: Seq<char>)
    ensures
        forall|k: int| 0 <= k < split_ws(s).len() ==> is_word(#[trigger] split_ws(s)[k]),
    decreases s.len(),
{
    if s.len() > 0 {
        let prev = split_ws(s.drop_last());
        lemma_split_ws_words(s.drop_last());
        let c = s.last();
        if !is_ws(c) && s.len() >= 2 && !is_ws(s[s.len() - 2]) && prev.len() > 0 {
            let upd = prev.update(prev.len() - 1, prev.last().push(c));
            assert forall|k: int| 0 <= k < upd.len() implies is_word(#[trigger] upd[k]) by {
                if k < prev.len() - 1 {
                    assert(upd[k] == prev[k]);
                } else {
                    assert(is_word(prev[prev.len() - 1]));
                    let w = prev.last().push(c);
                    assert forall|j: int| 0 <= j < w.len() implies !is_ws(#[trigger] w[j]) by {
                        if j < w.len() - 1 {
                            assert(w[j] == prev[prev.len() - 1][j]);
                        }
                    }
                }
            }
        } else if !is_ws(c) {
            let pu = prev.push(seq![c]);
            assert forall|k: int| 0 <= k < pu.len() implies is_word(#[trigger] pu[k]) by {
                if k < prev.len() {
                    assert(pu[k] == prev[k]);
                }
            }
        }
    }
}

/// A word written after whitespace (or at the start) splits off as one more word.
pub proof fn lemma_split_ws_append_word(s: Seq<char>, w: Seq<char>)
    requires
        s.len() == 0 || is_ws(s.last()),
        is_word(w),
    ensures
        split_ws(s + w) == split_ws(s).push(w),
    decreases w.len(),
{
    let sw = s + w;
    assert(sw.last() == w.last());
    if w.len() == 1 {
        assert(sw.drop_last() =~= s);
        assert(w =~= seq![w[0]]);
        if s.len() > 0 {
            assert(sw[sw.len() - 2] == s.last());
        }
    } else {
        let w1 = w.drop_last();
        assert(is_word(w1)) by {
            assert forall|j: int| 0 <= j < w1.len() implies !is_ws(#[trigger] w1[j]) by {
                assert(w1[j] == w[j]);
            }
        }
        lemma_split_ws_append_word(s, w1);
        assert(sw.drop_last() =~= s + w1);
        assert(sw[sw.len() - 2] == w[w.len() - 2]);
        assert(!is_ws(w[w.len() - 1]));
        assert(!is_ws(w[w.len() - 2]));
        let prev = split_ws(s).push(w1);
        assert(prev.update(prev.len() - 1, prev.last().push(w.last())) =~= split_ws(s).push(w)) by {
            assert(w1.push(w.last()) =~= w);
        }
    }
}

/// Whitespace in `s` is only single spaces between non-whitespace characters: none at
/// either end, none doubled, and no other whitespace character.
pub open spec fn single_spaced(s: Seq<char>) -> bool {
    forall|j: int|
        0 <= j < s.len() && is_ws(#[trigger] s[j]) ==> s[j] == ' ' && 0 < j < s.len() - 1 && !is_ws(
            s[j - 1],
        ) && !is_ws(s[j + 1])
}

/// Words joined by single spaces are single-spaced, and start and end with a word.
pub proof fn lemma_join_space_spaced(ws: Seq<Seq<char>>)
    requires
        forall|k: int| 0 <= k < ws.len() ==> is_word(#[trigger] ws[k]),
    ensures
        single_spaced(join_space(ws)),
        ws.len() > 0 ==> join_space(ws).len() > 0 && !is_ws(join_space(ws)[0]) && !is_ws(
            join_space(ws).last(),
        ),
    decreases ws.len(),
{
    if ws.len() == 1 {
        assert(is_word(ws[0]));
    } else if ws.len() > 1 {
        let init = ws.drop_last();
        assert forall|k: int| 0 <= k < init.len() implies is_word(#[trigger] init[k]) by {
            assert(init[k] == ws[k]);
        }
        lemma_join_space_spaced(init);
        let a = join_space(init);
        let w = ws.last();
        assert(is_word(ws[ws.len() - 1]));
        let r = a + seq![' '] + w;
        assert(r == join_space(ws));
        assert(r[0] == a[0]);
        assert(r.last() == w.last());
        assert forall|j: int| 0 <= j < r.len() && is_ws(#[trigger] r[j]) implies r[j] == ' ' && 0 < j
            < r.len() - 1 && !is_ws(r[j - 1]) && !is_ws(r[j + 1]) by {
            if j < a.len() {
                assert(r[j] == a[j]);
                assert(r[j - 1] == a[j - 1]);
                assert(r[j + 1] == a[j + 1]);
            } else if j == a.len() {
                assert(r[j - 1] == a.last());
                assert(r[j + 1] == w[0]);
            } else {
                assert(r[j] == w[j - a.len() - 1]);
            }
        }
    }
}

/// Joining words with single spaces and splitting on whitespace gives the words back.
pub proof fn lemma_split_ws_join(ws: Seq<Seq<char>>)
    requires
        forall|k: int| 0 <= k < ws.len() ==> is_word(#[trigger] ws[k]),
    ensures
        split_ws(join_space(ws)) == ws,
    decreases ws.len(),
{
    if ws.len() == 1 {
        lemma_split_ws_append_word(seq![], ws[0]);
        assert(seq![] + ws[0] =~= ws[0]);
        assert(seq![].push(ws[0]) =~= ws);
    } else if ws.len() > 1 {
        let init = ws.drop_last();
        assert forall|k: int| 0 <= k < init.len() implies is_word(#[trigger] init[k]) by {
            assert(init[k] == ws[k]);
        }
        lemma_split_ws_join(init);
        let s = join_space(init) + seq![' '];
        assert(s.drop_last() =~= join_space(init));
        assert(is_ws(s.last()));
        assert(is_word(ws[ws.len() - 1]));
        lemma_split_ws_append_word(s, ws.last());
        assert(init.push(ws.last()) =~= ws);
    }
}

// ---------------------------------------------------------------------
// Executable helpers
// ---------------------------------------------------------------------

/// Appends one character to a `String` (std's `String::push`).
#[verifier::external_body]
pub(crate) fn push_char(s: &mut String, c: char)
    ensures
        final(s)@ == old(s)@.push(c),
{
    s.push(c);
}

/// The characters of `s`, in order.
pub fn chars_of(s: &str) -> (v: Vec<char>)
    ensures
        v@ == s@,
{
    let mut v: Vec<char> = Vec::new();
    for c in it: s.chars()
        invariant
            v@ == it.seq().take(it.index() as int),
    {
        v.push(c);
    }
    v
}

/// Builds a `String` holding exactly the given characters.
pub fn string_of(v: &[char]) -> (s: String)
    ensures
        s@ == v@,
{
    let mut s = String::new();
    let mut i: usize = 0;
    while i < v.len()
        invariant
            i <= v.len(),
            s@ == v@.take(i as int),
        decreases v.len() - i,
    {
        push_char(&mut s, v[i]);
        assert(v@.take(i as int).push(v@[i as int]) =~= v@.take(i + 1));
        i = i + 1;
    }
    assert(v@.take(v.len() as int) =~= v@);
    s
}

/// The characters `v[lo..hi]` as a new vector.
pub fn sub_chars(v: &[char], lo: usize, hi: usize) -> (r: Vec<char>)
    requires
        lo <= hi <= v.len(),
    ensures
        r@ == v@.subrange(lo as int, hi as int),
{
    let mut r: Vec<char> = Vec::new();
    let mut i = lo;
    while i < hi
        invariant
            lo <= i <= hi <= v.len(),
            r@ == v@.subrange(lo as int, i as int),
        decreases hi - i,
    {
        r.push(v[i]);
        assert(v@.subrange(lo as int, i as int).push(v@[i as int]) =~= v@.subrange(
            lo as int,
            i + 1,
        ));
        i = i + 1;
    }
    r
}

/// Appends the characters of `src` to `dst`.
pub fn push_all(dst: &mut Vec<char>, src: &[char])
    ensures
        final(dst)@ == old(dst)@ + src@,
{
    let mut i: usize = 0;
    while i < src.len()
        invariant
            i <= src.len(),
            dst@ == old(dst)@ + src@.take(i as int),
        decreases src.len() - i,
    {
        dst.push(src[i]);
        assert(old(dst)@ + src@.take(i as int).push(src@[i as int]) =~= old(dst)@ + src@.take(
            i + 1,
        ));
        i = i + 1;
    }
    assert(src@.take(src.len() as int) =~= src@);
}

/// Appends the characters of a string slice to `dst`.
pub fn push_str(dst: &mut Vec<char>, s: &str)
    ensures
        final(dst)@ == old(dst)@ + s@,
{
    let cs = chars_of(s);
    push_all(dst, cs.as_slice());
}

/// `char::is_whitespace`.
pub fn is_whitespace(c: char) -> (b: bool)
    ensures
        b == is_ws(c),
{
    let u = c as u32;
    (0x9 <= u && u <= 0xD) || u == 0x20 || u == 0x85 || u == 0xA0 || u == 0x1680
        || (0x2000 <= u && u <= 0x200A) || u == 0x2028 || u == 0x2029 || u == 0x202F
        || u == 0x205F || u == 0x3000
}

/// `u8::is_ascii_whitespace` on the character's code.
pub fn is_ascii_whitespace(c: char) -> (b: bool)
    ensures
        b == is_ascii_ws(c),
{
    c == ' ' || c == '\t' || c == '\n' || c == '\x0C' || c == '\r'
}

/// The bounds `(lo, hi)` of `trim(v)` inside `v`.
pub fn trim_bounds(v: &[char]) -> (r: (usize, usize))
    ensures
        r.0 == trim_lo(v@),
        r.1 == trim_hi(v@),
        r.0 <= r.1 <= v.len(),
{
    proof {
        lemma_trim_bounds(v@);
    }
    let mut i: usize = 0;
    while i < v.len() && is_whitespace(v[i])
        invariant
            0 <= i <= v.len(),
            skip_ws_from(v@, 0) == skip_ws_from(v@, i as int),
        decreases v.len() - i,
    {
        i = i + 1;
    }
    let mut j: usize = v.len();
    while j > i && is_whitespace(v[j - 1])
        invariant
            i <= j <= v.len(),
            i == trim_lo(v@),
            back_ws_from(v@, i as int, v.len() as int) == back_ws_from(v@, i as int, j as int),
        decreases j,
    {
        j = j - 1;
    }
    (i, j)
}

/// `str::trim` on a character vector.
pub fn trim_chars(v: &[char]) -> (r: Vec<char>)
    ensures
        r@ == trim(v@),
{
    let (lo, hi) = trim_bounds(v);
    sub_chars(v, lo, hi)
}

/// Whether every character is whitespace (`s.trim().is_empty()`).
pub fn is_blank(v: &[char]) -> (b: bool)
    ensures
        b == (trim(v@).len() == 0),
        b == (forall|k: int| 0 <= k < v@.len() ==> is_ws(#[trigger] v@[k])),
{
    proof {
        lemma_trim_bounds(v@);
    }
    let (lo, hi) = trim_bounds(v);
    lo == hi
}

/// Whether `v` starts with `p`.
pub fn has_prefix(v: &[char], p: &[char]) -> (b: bool)
    ensures
        b == starts_with(v@, p@),
{
    if p.len() > v.len() {
        return false;
    }
    let mut i: usize = 0;
    while i < p.len()
        invariant
            p.len() <= v.len(),
            i <= p.len(),
            forall|k: int| 0 <= k < i ==> v@[k] == p@[k],
        decreases p.len() - i,
    {
        if v[i] != p[i] {
            assert(v@.subrange(0, p.len() as int)[i as int] != p@[i as int]);
            return false;
        }
        i = i + 1;
    }
    assert(v@.subrange(0, p.len() as int) =~= p@);
    true
}

/// Whether `v` ends with `p`.
pub fn has_suffix(v: &[char], p: &[char]) -> (b: bool)
    ensures
        b == ends_with(v@, p@),
{
    if p.len() > v.len() {
        return false;
    }
    let off = v.len() - p.len();
    let mut i: usize = 0;
    while i < p.len()
        invariant
            p.len() <= v.len(),
            off == v.len() - p.len(),
            i <= p.len(),
            forall|k: int| 0 <= k < i ==> v@[off + k] == p@[k],
        decreases p.len() - i,
    {
        if v[off + i] != p[i] {
            assert(v@.subrange(off as int, v.len() as int)[i as int] != p@[i as int]);
            return false;
        }
        i = i + 1;
    }
    assert(v@.subrange(off as int, v.len() as int) =~= p@);
    true
}

/// Whether `p` occurs in `v` at position `i`.
pub fn matches_at(v: &[char], p: &[char], i: usize) -> (b: bool)
    ensures
        b == occurs_at(v@, p@, i as int),
{
    if i > v.len() || p.len() > v.len() - i {
        return false;
    }
    let mut k: usize = 0;
    while k < p.len()
        invariant
            i + p.len() <= v.len(),
            k <= p.len(),
            forall|m: int| 0 <= m < k ==> v@[i + m] == p@[m],
        decreases p.len() - k,
    {
        if v[i + k] != p[k] {
            assert(v@.subrange(i as int, i + p.len())[k as int] != p@[k as int]);
            return false;
        }
        k = k + 1;
    }
    assert(v@.subrange(i as int, i + p.len()) =~= p@);
    true
}

/// Index of the first occurrence of `p` in `v` (`str::find`).
pub fn find_chars(v: &[char], p: &[char]) -> (r: Option<usize>)
    ensures
        r == (match find(v@, p@) {
            Some(i) => Some(i as usize),
            None => None,
        }),
        r matches Some(i) ==> i + p.len() <= v.len() && find(v@, p@) == Some(i as int),
{
    let mut i: usize = 0;
    while i <= v.len() && p.len() <= v.len() - i
        invariant
            find(v@, p@) == find_from(v@, p@, i as int),
        decreases v.len() + 1 - i,
    {
        if matches_at(v, p, i) {
            return Some(i);
        }
        if i == v.len() {
            assert(find_from(v@, p@, i + 1) == None::<int>);
            return None;
        }
        i = i + 1;
    }
    None
}

pub fn digit_to_char(d: usize) -> (c: char)
    requires
        d < 10,
    ensures
        c == digit_char(d as nat),
        is_digit(c),
        digit_value(c) == d,
{
    if d == 0 {
        '0'
    } else if d == 1 {
        '1'
    } else if d == 2 {
        '2'
    } else if d == 3 {
        '3'
    } else if d == 4 {
        '4'
    } else if d == 5 {
        '5'
    } else if d == 6 {
        '6'
    } else if d == 7 {
        '7'
    } else if d == 8 {
        '8'
    } else {
        '9'
    }
}

/// Appends the decimal rendering of `n`.
pub fn push_decimal(dst: &mut Vec<char>, n: u64)
    ensures
        final(dst)@ == old(dst)@ + decimal(n as nat),
    decreases n,
{
    if n >= 10 {
        push_decimal(dst, n / 10);
    }
    let d = (n % 10) as usize;
    let c = digit_to_char(d);
    dst.push(c);
    proof {
        if n >= 10 {
            assert(old(dst)@ + decimal((n / 10) as nat) + seq![c] =~= old(dst)@ + decimal(
                n as nat,
            ));
        } else {
            assert(old(dst)@ + seq![c] =~= old(dst)@ + decimal(n as nat));
        }
    }
}

/// Appends the decimal rendering of a signed `n`.
pub fn push_decimal_i64(dst: &mut Vec<char>, n: i64)
    ensures
        final(dst)@ == old(dst)@ + decimal_int(n as int),
{
    if n < 0 {
        dst.push('-');
        let m: u64 = if n == i64::MIN {
            9223372036854775808u64
        } else {
            (-n) as u64
        };
        push_decimal(dst, m);
        assert(old(dst)@ + seq!['-'] + decimal(m as nat) =~= old(dst)@ + decimal_int(n as int));
    } else {
        push_decimal(dst, n as u64);
    }
}

/// The decimal rendering of `n` as a `String` (`n.to_string()`).
pub fn decimal_string(n: u64) -> (s: String)
    ensures
        s@ == decimal(n as nat),
{
    let mut v: Vec<char> = Vec::new();
    push_decimal(&mut v, n);
    assert(Seq::<char>::empty() + decimal(n as nat) =~= decimal(n as nat));
    string_of(v.as_slice())
}

proof fn lemma_digits_value_monotone(s: Seq<char>, i: int)
    requires
        0 <= i <= s.len(),
    ensures
        digits_value(s.take(i)) <= digits_value(s),
    decreases s.len() - i,
{
    if i < s.len() {
        lemma_digits_value_monotone(s, i + 1);
        assert(s.take(i + 1).drop_last() =~= s.take(i));
    } else {
        assert(s.take(i) =~= s);
    }
}

/// Parses `v[lo..]` as a string of ASCII digits with value at most `max`.
fn parse_digits(v: &[char], lo: usize, max: u64) -> (r: Option<u64>)
    requires
        lo <= v.len(),
    ensures
        ({
            let d = v@.subrange(lo as int, v.len() as int);
            r == (if d.len() > 0 && all_digits(d) && digits_value(d) <= max {
                Some(digits_value(d) as u64)
            } else {
                None
            })
        }),
{
    let ghost d = v@.subrange(lo as int, v.len() as int);
    if lo == v.len() {
        return None;
    }
    let mut acc: u64 = 0;
    let mut i = lo;
    while i < v.len()
        invariant
            lo <= i <= v.len(),
            d == v@.subrange(lo as int, v.len() as int),
            all_digits(d.take(i - lo)),
            acc as nat == digits_value(d.take(i - lo)),
            acc <= max,
        decreases v.len() - i,
    {
        let c = v[i];
        let u = c as u32;
        if u < 0x30 || u > 0x39 {
            assert(d[i - lo] == c);
            return None;
        }
        let dv = (u - 0x30) as u64;
        assert(d.take(i - lo + 1).drop_last() =~= d.take(i - lo));
        assert(d.take(i - lo + 1).last() == c);
        if dv > max || acc > (max - dv) / 10 {
            proof {
                assert(digits_value(d.take(i - lo + 1)) == acc * 10 + dv);
                if dv <= max {
                    assert(acc * 10 + dv > max) by (nonlinear_arith)
                        requires
                            acc > (max - dv) / 10,
                            dv <= max,
                    ;
                }
                lemma_digits_value_monotone(d, i - lo + 1);
            }
            return None;
        }
        assert(acc * 10 + dv <= max) by (nonlinear_arith)
            requires
                acc <= (max - dv) / 10,
                dv <= max,
        ;
        acc = acc * 10 + dv;
        i = i + 1;
    }
    assert(d.take(i - lo) =~= d);
    Some(acc)
}

/// Whether two character slices are equal.
pub fn chars_eq(a: &[char], b: &[char]) -> (r: bool)
    ensures
        r == (a@ == b@),
{
    if a.len() != b.len() {
        return false;
    }
    let mut i: usize = 0;
    while i < a.len()
        invariant
            a.len() == b.len(),
            i <= a.len(),
            forall|j: int| 0 <= j < i ==> a@[j] == b@[j],
        decreases a.len() - i,
    {
        if a[i] != b[i] {
            return false;
        }
        i = i + 1;
    }
    assert(a@ =~= b@);
    true
}

/// Whether the characters equal those of `lit`.
pub fn chars_eq_str(a: &[char], lit: &str) -> (r: bool)
    ensures
        r == (a@ == lit@),
{
    let b = chars_of(lit);
    chars_eq(a, b.as_slice())
}

/// `str::parse::<usize>` on a character sequence.
pub fn parse_usize_chars(v: &[char]) -> (r: Option<usize>)
    ensures
        r == (match parse_unsigned(v@, usize::MAX as nat) {
            Some(n) => Some(n as usize),
            None => None,
        }),
{
    let lo: usize = if v.len() > 0 && v[0] == '+' {
        1
    } else {
        0
    };
    assert(v@.subrange(lo as int, v.len() as int) =~= unsigned_digits(v@));
    match parse_digits(v, lo, usize::MAX as u64) {
        Some(n) => Some(n as usize),
        None => None,
    }
}

/// `str::parse::<u64>` on a character sequence.
pub fn parse_u64_chars(v: &[char]) -> (r: Option<u64>)
    ensures
        r == (match parse_unsigned(v@, u64::MAX as nat) {
            Some(n) => Some(n as u64),
            None => None,
        }),
{
    let lo: usize = if v.len() > 0 && v[0] == '+' {
        1
    } else {
        0
    };
    assert(v@.subrange(lo as int, v.len() as int) =~= unsigned_digits(v@));
    parse_digits(v, lo, u64::MAX)
}

/// `str::parse::<i64>` on a character sequence.
pub fn parse_i64_chars(v: &[char]) -> (r: Option<i64>)
    ensures
        r == (match parse_signed(v@, i64::MIN as int, i64::MAX as int) {
            Some(n) => Some(n as i64),
            None => None,
        }),
{
    if v.len() > 0 && v[0] == '-' {
        assert(v@.subrange(1, v.len() as int) =~= v@.drop_first());
        match parse_digits(v, 1, 9223372036854775808u64) {
            Some(n) => {
                if n == 9223372036854775808u64 {
                    Some(i64::MIN)
                } else {
                    Some(-(n as i64))
                }
            },
            None => None,
        }
    } else {
        let lo: usize = if v.len() > 0 && v[0] == '+' {
            1
        } else {
            0
        };
        assert(v@.subrange(lo as int, v.len() as int) =~= unsigned_digits(v@));
        match parse_digits(v, lo, i64::MAX as u64) {
            Some(n) => Some(n as i64),
            None => None,
        }
    }
}

/// The character sequences held by a vector of character vectors.
pub open spec fn words_view(w: Seq<Vec<char>>) -> Seq<Seq<char>> {
    w.map_values(|x: Vec<char>| x@)
}

/// Splits `v` into its maximal runs of non-whitespace characters (`str::split_whitespace`).
pub fn split_whitespace_chars(v: &[char]) -> (r: Vec<Vec<char>>)
    ensures
        words_view(r@) == split_ws(v@),
{
    let mut words: Vec<Vec<char>> = Vec::new();
    let mut i: usize = 0;
    while i < v.len()
        invariant
            i <= v.len(),
            words_view(words@) == split_ws(v@.take(i as int)),
        decreases v.len() - i,
    {
        let c = v[i];
        let ghost s = v@.take(i + 1);
        assert(s.drop_last() =~= v@.take(i as int));
        assert(s.last() == c);
        if is_whitespace(c) {
        } else if i >= 1 && !is_whitespace(v[i - 1]) && words.len() > 0 {
            assert(s[s.len() - 2] == v@[i - 1]);
            let ghost prev = words_view(words@);
            let mut w = words.pop().unwrap();
            w.push(c);
            words.push(w);
            assert(words_view(words@) =~= prev.update(prev.len() - 1, prev.last().push(c)));
        } else {
            proof {
                if i >= 1 {
                    assert(s[s.len() - 2] == v@[i - 1]);
                }
            }
            let ghost prev = words_view(words@);
            let mut w: Vec<char> = Vec::new();
            w.push(c);
            words.push(w);
            assert(words_view(words@) =~= prev.push(seq![c]));
        }
        i = i + 1;
    }
    assert(v@.take(v.len() as int) =~= v@);
    words
}

/// `words[lo..hi].join(" ")`.
pub fn join_words(words: &Vec<Vec<char>>, lo: usize, hi: usize) -> (r: Vec<char>)
    requires
        lo <= hi <= words.len(),
    ensures
        r@ == join_space(words_view(words@).subrange(lo as int, hi as int)),
{
    let ghost dv = words_view(words@);
    let mut r: Vec<char> = Vec::new();
    let mut k = lo;
    while k < hi
        invariant
            lo <= k <= hi <= words.len(),
            dv == words_view(words@),
            r@ == join_space(dv.subrange(lo as int, k as int)),
        decreases hi - k,
    {
        let ghost before = r@;
        let ghost sub = dv.subrange(lo as int, k + 1);
        assert(sub.drop_last() =~= dv.subrange(lo as int, k as int));
        assert(sub.last() == words[k as int]@);
        if k > lo {
            r.push(' ');
        }
        push_all(&mut r, words[k].as_slice());
        proof {
            if k > lo {
                assert(r@ =~= before + seq![' '] + words[k as int]@);
            } else {
                assert(r@ =~= words[k as int]@);
            }
        }
        k = k + 1;
    }
    r
}


// ---------------------------------------------------------------------
// UTF-8 lengths
// ---------------------------------------------------------------------

/// Number of bytes of the UTF-8 encoding of `c`.
pub open spec fn utf8_width(c: char) -> nat {
    let u = c as u32;
    if u < 0x80 {
        1
    } else if u < 0x800 {
        2
    } else if u < 0x10000 {
        3
    } else {
        4
    }
}

/// Number of bytes of the UTF-8 encoding of `s` (what `str::len` returns).
pub open spec fn utf8_len(s: Seq<char>) -> nat
    decreases s.len(),
{
    if s.len() == 0 {
        0
    } else {
        utf8_len(s.drop_last()) + utf8_width(s.last())
    }
}

/// Whether byte offset `b` falls on a character boundary of `s`.
pub open spec fn is_boundary(s: Seq<char>, b: nat) -> bool {
    exists|k: int| 0 <= k <= s.len() && utf8_len(#[trigger] s.take(k)) == b
}

/// Number of bytes of the UTF-8 encoding of `c`.
pub fn utf8_width_exec(c: char) -> (w: usize)
    ensures
        w == utf8_width(c),
{
    let u = c as u32;
    if u < 0x80 {
        1
    } else if u < 0x800 {
        2
    } else if u < 0x10000 {
        3
    } else {
        4
    }
}

/// Number of bytes of the UTF-8 encoding of `v` (`str::len` of the same text).
pub fn utf8_len_exec(v: &[char]) -> (n: usize)
    requires
        utf8_len(v@) <= usize::MAX,
    ensures
        n == utf8_len(v@),
{
    let mut n: usize = 0;
    let mut k: usize = 0;
    while k < v.len()
        invariant
            k <= v@.len(),
            n == utf8_len(v@.take(k as int)),
            utf8_len(v@) <= usize::MAX,
        decreases v.len() - k,
    {
        assert(v@.take(k + 1).drop_last() =~= v@.take(k as int));
        proof {
            lemma_utf8_len_prefix(v@, k + 1);
        }
        n = n + utf8_width_exec(v[k]);
        k = k + 1;
    }
    assert(v@.take(v@.len() as int) =~= v@);
    n
}

/// A prefix is never longer in bytes than the whole.
pub proof fn lemma_utf8_len_prefix(s: Seq<char>, i: int)
    requires
        0 <= i <= s.len(),
    ensures
        utf8_len(s.take(i)) <= utf8_len(s),
    decreases s.len() - i,
{
    if i < s.len() {
        lemma_utf8_len_prefix(s, i + 1);
        assert(s.take(i + 1).drop_last() =~= s.take(i));
    } else {
        assert(s.take(i) =~= s);
    }
}


/// The character sequences of a list of strings.
pub open spec fn string_views(v: Seq<String>) -> Seq<Seq<char>> {
    v.map_values(|s: String| s@)
}


// ---------------------------------------------------------------------
// Editing a single-line input by character position
// ---------------------------------------------------------------------

/// `pos` clamped to `len`: where a cursor past the end lands.
pub open spec fn clamp_pos(pos: int, len: int) -> int {
    if pos <= len {
        pos
    } else {
        len
    }
}

/// Number of characters in `s`.
pub fn char_count(s: &str) -> (n: usize)
    ensures
        n == s@.len(),
{
    let v = chars_of(s);
    v.len()
}

/// Inserts `c` before the character at `pos` (at the end when `pos` is past it).
pub fn insert_char_at(s: &mut String, pos: usize, c: char)
    ensures
        final(s)@ == old(s)@.insert(clamp_pos(pos as int, old(s)@.len() as int), c),
{
    let v = chars_of(s.as_str());
    let p = if pos <= v.len() {
        pos
    } else {
        v.len()
    };
    let mut out = sub_chars(v.as_slice(), 0, p);
    out.push(c);
    let rest = sub_chars(v.as_slice(), p, v.len());
    push_all(&mut out, rest.as_slice());
    assert(out@ =~= v@.insert(p as int, c));
    *s = string_of(out.as_slice());
}

/// Removes the character at `pos`.
pub fn remove_char_at(s: &mut String, pos: usize)
    requires
        pos < old(s)@.len(),
    ensures
        final(s)@ == old(s)@.remove(pos as int),
{
    let v = chars_of(s.as_str());
    assert(v@.len() == old(s)@.len());
    assert(pos < v.len());
    let mut out = sub_chars(v.as_slice(), 0, pos);
    let rest = sub_chars(v.as_slice(), pos + 1, v.len());
    push_all(&mut out, rest.as_slice());
    assert(out@ =~= v@.remove(pos as int));
    *s = string_of(out.as_slice());
}


/// Removes the last character, if any (`String::pop`, result dropped).
pub fn pop_char(s: &mut String)
    ensures
        final(s)@ == (if old(s)@.len() > 0 {
            old(s)@.drop_last()
        } else {
            old(s)@
        }),
{
    let v = chars_of(s.as_str());
    if v.len() > 0 {
        let w = sub_chars(v.as_slice(), 0, v.len() - 1);
        assert(w@ =~= v@.drop_last());
        *s = string_of(w.as_slice());
    }
}


/// Index of the first occurrence of `x` in `s` (`s.len()` when absent).
pub open spec fn first_index<T>(s: Seq<T>, x: T) -> int
    decreases s.len(),
{
    if s.len() == 0 {
        0
    } else if s[0] == x {
        0
    } else {
        1 + first_index(s.drop_first(), x)
    }
}

/// Where `first_index` points.
pub proof fn lemma_first_index<T>(s: Seq<T>, x: T)
    ensures
        0 <= first_index(s, x) <= s.len(),
        first_index(s, x) < s.len() <==> s.contains(x),
        first_index(s, x) < s.len() ==> s[first_index(s, x)] == x,
        forall|k: int| 0 <= k < first_index(s, x) ==> s[k] != x,
    decreases s.len(),
{
    if s.len() > 0 && s[0] != x {
        lemma_first_index(s.drop_first(), x);
        if s.contains(x) {
            let w = choose|w: int| 0 <= w < s.len() && s[w] == x;
            assert(s.drop_first()[w - 1] == x);
        }
        if s.drop_first().contains(x) {
            let w = choose|w: int| 0 <= w < s.drop_first().len() && s.drop_first()[w] == x;
            assert(s[w + 1] == x);
        }
        assert forall|k: int| 0 <= k < first_index(s, x) implies s[k] != x by {
            if k > 0 {
                assert(s[k] == s.drop_first()[k - 1]);
            }
        }
    }
}

} // verus!
